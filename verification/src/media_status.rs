//! Event types shared by the bridge and the renderer: the closed set of
//! notifications, the playback-status code mapping, durations, and the
//! one-shot "now playing" line.

use vstd::prelude::*;

verus! {

/// Playback state of the active session. `Unknown` is the catch-all for any
/// status code the platform may report outside the closed set, so new codes
/// degrade gracefully instead of failing.
#[derive(Clone, Copy, Debug, PartialEq, Eq, Structural)]
pub enum PlayStatus {
    Unknown,
    Closed,
    Opened,
    Changing,
    Stopped,
    Playing,
    Paused,
}

/// The mapping from the platform's raw playback-status code to the closed
/// status set: codes 0 through 5 in declaration order, anything else `Unknown`.
pub open spec fn status_from_code(code: int) -> PlayStatus {
    if code == 0 {
        PlayStatus::Closed
    } else if code == 1 {
        PlayStatus::Opened
    } else if code == 2 {
        PlayStatus::Changing
    } else if code == 3 {
        PlayStatus::Stopped
    } else if code == 4 {
        PlayStatus::Playing
    } else if code == 5 {
        PlayStatus::Paused
    } else {
        PlayStatus::Unknown
    }
}

impl PlayStatus {
    /// Maps a raw platform status code to the closed status set.
    pub fn from_code(code: i32) -> (s: PlayStatus)
        ensures
            s == status_from_code(code as int),
    {
        match code {
            0 => PlayStatus::Closed,
            1 => PlayStatus::Opened,
            2 => PlayStatus::Changing,
            3 => PlayStatus::Stopped,
            4 => PlayStatus::Playing,
            5 => PlayStatus::Paused,
            _ => PlayStatus::Unknown,
        }
    }
}

pub const NANOS_PER_SEC: u64 = 1_000_000_000;

/// A non-negative media duration in whole nanoseconds.
#[derive(Clone, Copy, Debug, PartialEq, Eq, Structural)]
pub struct MediaDuration {
    pub nanos: u64,
}

/// Conversion from the platform's 100-nanosecond timeline ticks to
/// nanoseconds. A duration is non-negative, so a negative tick count clamps to
/// zero; a tick count too large for the nanosecond scale saturates rather than
/// overflowing.
pub open spec fn nanos_from_ticks(ticks: int) -> u64 {
    if ticks <= 0 {
        0u64
    } else if ticks * 100 > u64::MAX {
        u64::MAX
    } else {
        (ticks * 100) as u64
    }
}

impl MediaDuration {
    /// Converts a timeline snapshot value, given in 100-nanosecond ticks.
    pub fn from_ticks(ticks: i64) -> (d: MediaDuration)
        ensures
            d.nanos == nanos_from_ticks(ticks as int),
    {
        if ticks <= 0 {
            MediaDuration { nanos: 0 }
        } else {
            let t = ticks as u64;
            if t > u64::MAX / 100 {
                MediaDuration { nanos: u64::MAX }
            } else {
                MediaDuration { nanos: t * 100 }
            }
        }
    }

    pub fn from_secs(secs: u64) -> (d: MediaDuration)
        requires
            secs * NANOS_PER_SEC <= u64::MAX,
        ensures
            d.nanos == secs * NANOS_PER_SEC,
    {
        MediaDuration { nanos: secs * NANOS_PER_SEC }
    }

    pub fn as_secs(&self) -> (s: u64)
        ensures
            s == self.nanos / NANOS_PER_SEC,
    {
        self.nanos / NANOS_PER_SEC
    }
}

/// Best-effort copy of the session's media-properties snapshot at notification
/// time; no field is re-fetched lazily.
#[derive(Clone, Debug, PartialEq)]
pub struct TrackInfo {
    pub artist: String,
    pub album: String,
    pub album_artist: String,
    pub track_num: i32,
    pub title: String,
}

/// One discrete notification emitted by the event bridge. Each variant is
/// self-contained; no event references another event.
#[derive(Clone, Debug)]
pub enum MediaEvent {
    PlayStatusChanged(PlayStatus),
    InfoChanged(TrackInfo),
    PositionChanged { current: MediaDuration, length: MediaDuration },
    SourceAppChanged(Option<String>),
}

/// The one-shot line, `artist - title [album]`.
pub open spec fn now_playing_spec(t: TrackInfo) -> Seq<char> {
    t.artist@ + " - "@ + t.title@ + " ["@ + t.album@ + "]"@
}

/// Formats the line that one-shot mode prints and copies to the clipboard.
pub fn format_now_playing(track: &TrackInfo) -> (s: String)
    ensures
        s@ == now_playing_spec(*track),
{
    let mut s = String::new();
    s.append(track.artist.as_str());
    s.append(" - ");
    s.append(track.title.as_str());
    s.append(" [");
    s.append(track.album.as_str());
    s.append("]");
    proof {
        assert(s@ =~= now_playing_spec(*track));
    }
    s
}

} // verus!
