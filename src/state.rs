use vstd::prelude::*;

verus! {

/// Transport state of a player, as the engine reports it.
#[derive(Clone, Copy, Debug, PartialEq, Eq, Structural)]
pub enum PlaybackState {
    NothingSpecial,
    Opening,
    Buffering,
    Playing,
    Paused,
    Stopped,
    Stopping,
    Error,
}

/// The engine's numeric code of each transport state.
pub open spec fn playback_state_code(s: PlaybackState) -> int {
    match s {
        PlaybackState::NothingSpecial => 0,
        PlaybackState::Opening => 1,
        PlaybackState::Buffering => 2,
        PlaybackState::Playing => 3,
        PlaybackState::Paused => 4,
        PlaybackState::Stopped => 5,
        PlaybackState::Stopping => 6,
        PlaybackState::Error => 7,
    }
}

impl PlaybackState {
    /// The state an engine code denotes, or `None` for an unknown code.
    pub fn from_code(code: i32) -> (r: Option<PlaybackState>)
        ensures
            r matches Some(s) ==> playback_state_code(s) == code,
            r is None <==> !(0 <= code <= 7),
    {
        match code {
            0 => Some(PlaybackState::NothingSpecial),
            1 => Some(PlaybackState::Opening),
            2 => Some(PlaybackState::Buffering),
            3 => Some(PlaybackState::Playing),
            4 => Some(PlaybackState::Paused),
            5 => Some(PlaybackState::Stopped),
            6 => Some(PlaybackState::Stopping),
            7 => Some(PlaybackState::Error),
            _ => None,
        }
    }

    pub fn code(&self) -> (r: i32)
        ensures
            r == playback_state_code(*self),
    {
        match self {
            PlaybackState::NothingSpecial => 0,
            PlaybackState::Opening => 1,
            PlaybackState::Buffering => 2,
            PlaybackState::Playing => 3,
            PlaybackState::Paused => 4,
            PlaybackState::Stopped => 5,
            PlaybackState::Stopping => 6,
            PlaybackState::Error => 7,
        }
    }
}

/// Progress of the engine's parsing of a media item.
#[derive(Clone, Copy, Debug, PartialEq, Eq, Structural)]
pub enum ParsedStatus {
    NotParsed,
    Pending,
    Skipped,
    Failed,
    Timeout,
    Cancelled,
    Done,
}

/// The engine's numeric code of each parse status.
pub open spec fn parsed_status_code(s: ParsedStatus) -> int {
    match s {
        ParsedStatus::NotParsed => 0,
        ParsedStatus::Pending => 1,
        ParsedStatus::Skipped => 2,
        ParsedStatus::Failed => 3,
        ParsedStatus::Timeout => 4,
        ParsedStatus::Cancelled => 5,
        ParsedStatus::Done => 6,
    }
}

impl ParsedStatus {
    /// The status an engine code denotes, or `None` for an unknown code.
    pub fn from_code(code: i32) -> (r: Option<ParsedStatus>)
        ensures
            r matches Some(s) ==> parsed_status_code(s) == code,
            r is None <==> !(0 <= code <= 6),
    {
        match code {
            0 => Some(ParsedStatus::NotParsed),
            1 => Some(ParsedStatus::Pending),
            2 => Some(ParsedStatus::Skipped),
            3 => Some(ParsedStatus::Failed),
            4 => Some(ParsedStatus::Timeout),
            5 => Some(ParsedStatus::Cancelled),
            6 => Some(ParsedStatus::Done),
            _ => None,
        }
    }
}

/// How the video image is fitted into the control showing it.
#[derive(Clone, Copy, Debug, PartialEq, Eq, Structural)]
pub enum StretchMode {
    Scale,
    Tile,
    Keep,
    KeepCenterd,
    KeepAspect,
    KeepAspectCenterd,
    KeepAspectCovered,
}

/// The mode each setting index selects; an unknown index selects the
/// default, `KeepAspectCenterd`.
pub open spec fn stretch_mode_of(index: i64) -> StretchMode {
    if index == 0 {
        StretchMode::Scale
    } else if index == 1 {
        StretchMode::Tile
    } else if index == 2 {
        StretchMode::Keep
    } else if index == 3 {
        StretchMode::KeepCenterd
    } else if index == 4 {
        StretchMode::KeepAspect
    } else if index == 6 {
        StretchMode::KeepAspectCovered
    } else {
        StretchMode::KeepAspectCenterd
    }
}

impl StretchMode {
    pub fn from_index(index: i64) -> (r: StretchMode)
        ensures
            r == stretch_mode_of(index),
    {
        match index {
            0 => StretchMode::Scale,
            1 => StretchMode::Tile,
            2 => StretchMode::Keep,
            3 => StretchMode::KeepCenterd,
            4 => StretchMode::KeepAspect,
            5 => StretchMode::KeepAspectCenterd,
            6 => StretchMode::KeepAspectCovered,
            _ => StretchMode::KeepAspectCenterd,
        }
    }
}

/// Speaker layout the audio output mixes to.
#[derive(Clone, Copy, Debug, PartialEq, Eq, Structural)]
pub enum MixTarget {
    Stereo,
    Surround,
    Center,
}

/// The target each setting index selects; an unknown index selects the
/// default, `Stereo`.
pub open spec fn mix_target_of(index: i64) -> MixTarget {
    if index == 1 {
        MixTarget::Surround
    } else if index == 2 {
        MixTarget::Center
    } else {
        MixTarget::Stereo
    }
}

impl MixTarget {
    pub fn from_index(index: i64) -> (r: MixTarget)
        ensures
            r == mix_target_of(index),
    {
        match index {
            0 => MixTarget::Stereo,
            1 => MixTarget::Surround,
            2 => MixTarget::Center,
            _ => MixTarget::Stereo,
        }
    }
}

} // verus!
