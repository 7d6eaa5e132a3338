use vstd::prelude::*;

use crate::state::PlaybackState;
use crate::track::{TrackView, VlcTrackList};

verus! {

/// What is known of a bound media item: its length and its tracks.
pub struct MediaInfo {
    pub length_ms: i64,
    pub tracks: VlcTrackList,
}

/// Mathematical value of a media item's description.
pub struct MediaInfoView {
    pub length_ms: int,
    pub tracks: Seq<TrackView>,
}

impl View for MediaInfo {
    type V = MediaInfoView;

    open spec fn view(&self) -> MediaInfoView {
        MediaInfoView { length_ms: self.length_ms as int, tracks: self.tracks@ }
    }
}

/// The next thing to do while waiting for playback to start.
#[derive(Clone, Copy, Debug, PartialEq, Eq, Structural)]
pub enum PlayStep {
    /// Not playing yet: wait the poll interval and ask the engine again.
    Poll,
    /// Playing: reselect `audio_track` and reapply the pause intent.
    Started { audio_track: i32, paused: bool },
}

/// The next thing to do in a synchronous stop.
#[derive(Clone, Copy, Debug, PartialEq, Eq, Structural)]
pub enum StopStep {
    /// Ask the engine to stop, then poll.
    RequestStop,
    /// Not stopped yet: wait the poll interval and ask the engine again.
    Poll,
    /// The engine reports `Stopped`: the stop is complete.
    Stopped,
}

/// Mathematical state of a playback session.
pub struct SessionModel {
    /// Identity of the bound media item.
    pub media: Option<u64>,
    /// Description recorded for the bound media item.
    pub info: Option<MediaInfoView>,
    pub playing: bool,
    /// Pause intent, reapplied whenever playback starts.
    pub paused: bool,
    /// Index of the last selected audio track, reapplied whenever playback
    /// starts.
    pub audio_track: i32,
    /// The player handle has not been released yet.
    pub live: bool,
}

/// The reply to an observation `observed` of the engine's state during a
/// synchronous stop; `first` marks the observation made before anything was
/// requested.
pub open spec fn stop_reply(first: bool, observed: PlaybackState) -> StopStep {
    if observed == PlaybackState::Stopped {
        StopStep::Stopped
    } else if first {
        StopStep::RequestStop
    } else {
        StopStep::Poll
    }
}

impl SessionModel {
    pub open spec fn initial() -> SessionModel {
        SessionModel {
            media: None,
            info: None,
            playing: false,
            paused: false,
            audio_track: 0,
            live: true,
        }
    }

    pub open spec fn after_bind(self, media: u64) -> SessionModel {
        SessionModel { media: Some(media), info: None, playing: false, ..self }
    }

    /// A description is kept only for the media item currently bound.
    pub open spec fn accepts_info(self, media: u64) -> bool {
        self.live && self.media == Some(media)
    }

    pub open spec fn after_record(self, media: u64, info: MediaInfoView) -> SessionModel {
        if self.accepts_info(media) {
            SessionModel { info: Some(info), ..self }
        } else {
            self
        }
    }

    pub open spec fn after_play_poll(self, engine_playing: bool) -> SessionModel {
        if engine_playing {
            SessionModel { playing: true, ..self }
        } else {
            self
        }
    }

    pub open spec fn after_stop_observation(self, observed: PlaybackState) -> SessionModel {
        if observed == PlaybackState::Stopped {
            SessionModel { playing: false, ..self }
        } else {
            self
        }
    }

    pub open spec fn selectable(idx: i32, count: u64) -> bool {
        0 <= idx && idx < count
    }

    pub open spec fn after_select(self, idx: i32, count: u64) -> SessionModel {
        if SessionModel::selectable(idx, count) {
            SessionModel { audio_track: idx, ..self }
        } else {
            self
        }
    }
}

/// One playback session: the bound media item, the transport state the host
/// sees, and the intents (pause, audio track) reapplied on every start.
///
/// Waiting on the engine is the caller's: each method takes what the engine
/// reported and returns what to do next.
pub struct Session {
    media: Option<u64>,
    info: Option<MediaInfo>,
    playing: bool,
    paused: bool,
    audio_track: i32,
    live: bool,
}

impl View for Session {
    type V = SessionModel;

    closed spec fn view(&self) -> SessionModel {
        SessionModel {
            media: self.media,
            info: match self.info {
                Some(i) => Some(i@),
                None => None,
            },
            playing: self.playing,
            paused: self.paused,
            audio_track: self.audio_track,
            live: self.live,
        }
    }
}

impl Session {
    pub fn new() -> (r: Session)
        ensures
            r@ == SessionModel::initial(),
    {
        Session {
            media: None,
            info: None,
            playing: false,
            paused: false,
            audio_track: 0,
            live: true,
        }
    }

    /// Binds the media item `media`, replacing the one bound before; what
    /// was recorded of that one is forgotten.
    pub fn set_media(&mut self, media: u64)
        ensures
            final(self)@ == old(self)@.after_bind(media),
    {
        self.media = Some(media);
        self.info = None;
        self.playing = false;
    }

    /// Records the description of `media`. Kept, and `true` returned, only
    /// when `media` is the item bound now and the player is live: a
    /// description of an item bound earlier is stale and dropped.
    pub fn record_media_info(&mut self, media: u64, info: MediaInfo) -> (r: bool)
        ensures
            r == old(self)@.accepts_info(media),
            final(self)@ == old(self)@.after_record(media, info@),
    {
        if self.live && self.media == Some(media) {
            self.info = Some(info);
            true
        } else {
            false
        }
    }

    /// Handles one poll of a start request: `engine_playing` tells whether
    /// the engine reports playing. Once it does, the session is playing and
    /// the caller reapplies the audio track and the pause intent returned.
    pub fn on_play_poll(&mut self, engine_playing: bool) -> (r: PlayStep)
        ensures
            final(self)@ == old(self)@.after_play_poll(engine_playing),
            engine_playing ==> r == (PlayStep::Started {
                audio_track: old(self)@.audio_track,
                paused: old(self)@.paused,
            }),
            !engine_playing ==> r == PlayStep::Poll,
    {
        if engine_playing {
            self.playing = true;
            PlayStep::Started { audio_track: self.audio_track, paused: self.paused }
        } else {
            PlayStep::Poll
        }
    }

    /// Starts a synchronous stop, given the engine's state now. On a session
    /// already stopped it completes at once; otherwise the caller asks the
    /// engine to stop and polls.
    pub fn begin_stop(&mut self, observed: PlaybackState) -> (r: StopStep)
        ensures
            r == stop_reply(true, observed),
            final(self)@ == old(self)@.after_stop_observation(observed),
    {
        if observed == PlaybackState::Stopped {
            self.playing = false;
            StopStep::Stopped
        } else {
            StopStep::RequestStop
        }
    }

    /// Handles one poll of a synchronous stop. It completes only when the
    /// engine reports the terminal `Stopped` state.
    pub fn on_stop_poll(&mut self, observed: PlaybackState) -> (r: StopStep)
        ensures
            r == stop_reply(false, observed),
            final(self)@ == old(self)@.after_stop_observation(observed),
    {
        if observed == PlaybackState::Stopped {
            self.playing = false;
            StopStep::Stopped
        } else {
            StopStep::Poll
        }
    }

    /// Records the pause intent. Returns whether it must be passed on to the
    /// engine now, which is when the session is playing.
    pub fn set_paused(&mut self, paused: bool) -> (r: bool)
        ensures
            final(self)@ == (SessionModel { paused, ..old(self)@ }),
            r == old(self)@.playing,
    {
        self.paused = paused;
        self.playing
    }

    /// Takes the engine's report of whether it is playing.
    pub fn observe_playing(&mut self, engine_playing: bool)
        ensures
            final(self)@ == (SessionModel { playing: engine_playing, ..old(self)@ }),
    {
        self.playing = engine_playing;
    }

    /// Selects the audio track at `idx` among `count` tracks. An index
    /// outside `[0, count)` changes nothing and returns `None`; otherwise the
    /// selection is kept and the index to select in the engine is returned.
    pub fn select_audio_track(&mut self, idx: i32, count: u64) -> (r: Option<u64>)
        ensures
            final(self)@ == old(self)@.after_select(idx, count),
            SessionModel::selectable(idx, count) ==> r == Some(idx as u64),
            !SessionModel::selectable(idx, count) ==> r is None,
    {
        if idx >= 0 && (idx as u64) < count {
            self.audio_track = idx;
            Some(idx as u64)
        } else {
            None
        }
    }

    /// Ends the session. Returns `true` exactly once: the first time, when
    /// the caller must release the player handle.
    pub fn teardown(&mut self) -> (r: bool)
        ensures
            r == old(self)@.live,
            final(self)@ == (SessionModel { live: false, playing: false, ..old(self)@ }),
    {
        let was = self.live;
        self.live = false;
        self.playing = false;
        was
    }

    pub fn media(&self) -> (r: Option<u64>)
        ensures
            r == self@.media,
    {
        self.media
    }

    /// Length of the bound media item, once recorded.
    pub fn length_ms(&self) -> (r: Option<i64>)
        ensures
            self@.info is None ==> r is None,
            self@.info matches Some(i) ==> (r matches Some(l) && l == i.length_ms),
    {
        match &self.info {
            Some(i) => Some(i.length_ms),
            None => None,
        }
    }

    /// Tracks of the bound media item, once recorded.
    pub fn tracks(&self) -> (r: Option<&VlcTrackList>)
        ensures
            self@.info is None ==> r is None,
            self@.info matches Some(i) ==> (r matches Some(t) && t@ == i.tracks),
    {
        match &self.info {
            Some(i) => Some(&i.tracks),
            None => None,
        }
    }

    pub fn is_playing(&self) -> (r: bool)
        ensures
            r == self@.playing,
    {
        self.playing
    }

    pub fn is_paused(&self) -> (r: bool)
        ensures
            r == self@.paused,
    {
        self.paused
    }

    pub fn audio_track(&self) -> (r: i32)
        ensures
            r == self@.audio_track,
    {
        self.audio_track
    }
}

/// A synchronous stop completes at an observation exactly when that
/// observation is the terminal `Stopped` state: fed any sequence of
/// observed engine states, the replies finish at the first `Stopped` and not
/// before, and until then the session still reports what it reported
/// before. On a session already stopped the very first reply completes,
/// without a stop request.
pub proof fn lemma_stop_sync_waits_for_stopped(m: SessionModel, observed: Seq<PlaybackState>)
    requires
        observed.len() > 0,
    ensures
        forall|i: int|
            0 <= i < observed.len() ==> (stop_reply(i == 0, #[trigger] observed[i])
                == StopStep::Stopped <==> observed[i] == PlaybackState::Stopped),
        forall|i: int|
            0 <= i < observed.len() && observed[i] != PlaybackState::Stopped
                ==> #[trigger] m.after_stop_observation(observed[i]) == m,
        forall|i: int|
            0 <= i < observed.len() && observed[i] == PlaybackState::Stopped
                ==> !(#[trigger] m.after_stop_observation(observed[i])).playing,
        observed[0] == PlaybackState::Stopped ==> stop_reply(true, observed[0])
            == StopStep::Stopped,
{
}

/// Selecting an audio track by an index outside `[0, count)` leaves the
/// session, and so the previous selection, unchanged.
pub proof fn lemma_out_of_range_selection_is_noop(m: SessionModel, idx: i32, count: u64)
    requires
        !(0 <= idx < count),
    ensures
        m.after_select(idx, count) == m,
        m.after_select(idx, count).audio_track == m.audio_track,
{
}

/// Binding media `a`, recording its description, playing, stopping,
/// binding media `b` and playing again leaves the session reflecting `b`
/// alone: a late description of `a` is dropped, and what the session knows of
/// its media is either nothing or what was recorded for `b`.
pub proof fn lemma_rebind_forgets_previous_media(
    m: SessionModel,
    a: u64,
    b: u64,
    info_a: MediaInfoView,
    late_a: MediaInfoView,
    info_b: MediaInfoView,
)
    requires
        a != b,
        m.live,
    ensures
        ({
            let played_a = m.after_bind(a).after_record(a, info_a).after_play_poll(true);
            let stopped = played_a.after_stop_observation(PlaybackState::Stopped);
            let bound_b = stopped.after_bind(b).after_record(a, late_a);
            let unrecorded = bound_b.after_play_poll(true);
            let recorded = bound_b.after_record(b, info_b).after_play_poll(true);
            &&& played_a.info == Some(info_a)
            &&& unrecorded.media == Some(b)
            &&& unrecorded.info is None
            &&& unrecorded.playing
            &&& recorded.media == Some(b)
            &&& recorded.info == Some(info_b)
            &&& recorded.playing
        }),
{
}

} // verus!
