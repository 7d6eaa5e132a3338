use vstd::prelude::*;

verus! {

/// Kind of an elementary stream inside a media item.
#[derive(Clone, Copy, Debug, PartialEq, Eq, Structural)]
pub enum TrackType {
    Unknown,
    Audio,
    Video,
    Text,
}

/// The engine's numeric code of each track kind.
pub open spec fn track_type_code(t: TrackType) -> int {
    match t {
        TrackType::Unknown => -1,
        TrackType::Audio => 0,
        TrackType::Video => 1,
        TrackType::Text => 2,
    }
}

/// The track kind that an engine code denotes; codes outside the known set
/// denote `Unknown`.
pub open spec fn track_type_of_code(code: i32) -> TrackType {
    if code == 0 {
        TrackType::Audio
    } else if code == 1 {
        TrackType::Video
    } else if code == 2 {
        TrackType::Text
    } else {
        TrackType::Unknown
    }
}

impl TrackType {
    pub fn from_code(code: i32) -> (r: TrackType)
        ensures
            r == track_type_of_code(code),
    {
        if code == 0 {
            TrackType::Audio
        } else if code == 1 {
            TrackType::Video
        } else if code == 2 {
            TrackType::Text
        } else {
            TrackType::Unknown
        }
    }

    pub fn code(&self) -> (r: i32)
        ensures
            r == track_type_code(*self),
    {
        match self {
            TrackType::Unknown => -1,
            TrackType::Audio => 0,
            TrackType::Video => 1,
            TrackType::Text => 2,
        }
    }
}

/// Immutable description of one track, as reported by the engine.
pub struct VlcTrack {
    track_type: TrackType,
    bitrate: u32,
    language: String,
    description: String,
    id: String,
    name: String,
    selected: bool,
}

/// Mathematical value of a track descriptor.
pub struct TrackView {
    pub track_type: TrackType,
    pub bitrate: u32,
    pub language: Seq<char>,
    pub description: Seq<char>,
    pub id: Seq<char>,
    pub name: Seq<char>,
    pub selected: bool,
}

impl View for VlcTrack {
    type V = TrackView;

    closed spec fn view(&self) -> TrackView {
        TrackView {
            track_type: self.track_type,
            bitrate: self.bitrate,
            language: self.language@,
            description: self.description@,
            id: self.id@,
            name: self.name@,
            selected: self.selected,
        }
    }
}

impl VlcTrack {
    pub fn new(
        track_type: TrackType,
        bitrate: u32,
        language: String,
        description: String,
        id: String,
        name: String,
        selected: bool,
    ) -> (r: VlcTrack)
        ensures
            r@ == (TrackView {
                track_type,
                bitrate,
                language: language@,
                description: description@,
                id: id@,
                name: name@,
                selected,
            }),
    {
        VlcTrack { track_type, bitrate, language, description, id, name, selected }
    }

    /// The engine's code of the track kind.
    pub fn get_type(&self) -> (r: i32)
        ensures
            r == track_type_code(self@.track_type),
    {
        self.track_type.code()
    }

    pub fn get_bitrate(&self) -> (r: u32)
        ensures
            r == self@.bitrate,
    {
        self.bitrate
    }

    pub fn get_language(&self) -> (r: &str)
        ensures
            r@ == self@.language,
    {
        self.language.as_str()
    }

    pub fn get_description(&self) -> (r: &str)
        ensures
            r@ == self@.description,
    {
        self.description.as_str()
    }

    /// Identifier of the track, stable across runs of the engine.
    pub fn get_id(&self) -> (r: &str)
        ensures
            r@ == self@.id,
    {
        self.id.as_str()
    }

    pub fn get_name(&self) -> (r: &str)
        ensures
            r@ == self@.name,
    {
        self.name.as_str()
    }

    pub fn is_selected(&self) -> (r: bool)
        ensures
            r == self@.selected,
    {
        self.selected
    }
}

/// A point-in-time, read-only sequence of track descriptors.
pub struct VlcTrackList {
    tracks: Vec<VlcTrack>,
}

impl View for VlcTrackList {
    type V = Seq<TrackView>;

    closed spec fn view(&self) -> Seq<TrackView> {
        self.tracks@.map_values(|t: VlcTrack| t@)
    }
}

impl VlcTrackList {
    pub fn new(tracks: Vec<VlcTrack>) -> (r: VlcTrackList)
        ensures
            r@ == tracks@.map_values(|t: VlcTrack| t@),
    {
        VlcTrackList { tracks }
    }

    /// Number of tracks in the snapshot.
    pub fn tracklist_count(&self) -> (r: u64)
        ensures
            r == self@.len(),
    {
        self.tracks.len() as u64
    }

    /// The track at `index`, or `None` when `index` is out of range.
    pub fn tracklist_at(&self, index: u64) -> (r: Option<&VlcTrack>)
        ensures
            index < self@.len() ==> (r matches Some(t) && t@ == self@[index as int]),
            index >= self@.len() ==> r is None,
    {
        if index >= self.tracks.len() as u64 {
            None
        } else {
            Some(&self.tracks[index as usize])
        }
    }

    /// All tracks, in order.
    pub fn get_tracks(&self) -> (r: &[VlcTrack])
        ensures
            r@.map_values(|t: VlcTrack| t@) == self@,
    {
        self.tracks.as_slice()
    }
}

} // verus!
