//! What the player pushes to the operating system's now-playing surface.
use crate::engine::AudioCommand;
use vstd::prelude::*;

verus! {

/// Track details shown by the operating system; a missing cover or duration
/// is `None`, never an empty value.
#[derive(Clone, Debug)]
pub struct TrackMetadata {
    pub title: String,
    pub artist: String,
    pub album: String,
    pub cover: Option<String>,
    pub duration_secs: Option<u32>,
}

/// Playing or paused, with the position in seconds when it is known.
#[derive(Clone, Copy, Debug, PartialEq, Eq, Structural)]
pub struct PlaybackReport {
    pub playing: bool,
    pub position_secs: Option<u32>,
}

/// The metadata for a track about to play. An empty `cover` means there is
/// none, and so does a `duration` of zero.
pub fn now_playing_metadata(title: String, artist: String, album: String, cover: String, duration: u32) -> (r: TrackMetadata)
    ensures
        r.title@ == title@,
        r.artist@ == artist@,
        r.album@ == album@,
        cover@.len() == 0 ==> r.cover is None,
        cover@.len() > 0 ==> (r.cover matches Some(c) && c@ == cover@),
        duration == 0 ==> r.duration_secs is None,
        duration > 0 ==> r.duration_secs == Some(duration),
{
    let cover = if cover.as_str().is_empty() { None } else { Some(cover) };
    let duration_secs = if duration > 0 { Some(duration) } else { None };
    TrackMetadata { title, artist, album, cover, duration_secs }
}

/// The playback state to report once `cmd` has been sent, or `None` when the
/// command changes nothing that the surface shows.
pub fn playback_report(cmd: &AudioCommand) -> (r: Option<PlaybackReport>)
    ensures
        r == (match cmd {
            AudioCommand::Play(_) => Some(PlaybackReport { playing: true, position_secs: Some(0u32) }),
            AudioCommand::Pause => Some(PlaybackReport { playing: false, position_secs: None }),
            AudioCommand::Resume => Some(PlaybackReport { playing: true, position_secs: None }),
            AudioCommand::Seek(t, resume) => Some(PlaybackReport { playing: *resume, position_secs: Some(*t) }),
            AudioCommand::SetVolume(_) => None,
            AudioCommand::SetOutputDevice(_) => None,
        }),
{
    match cmd {
        AudioCommand::Play(_) => Some(PlaybackReport { playing: true, position_secs: Some(0) }),
        AudioCommand::Pause => Some(PlaybackReport { playing: false, position_secs: None }),
        AudioCommand::Resume => Some(PlaybackReport { playing: true, position_secs: None }),
        AudioCommand::Seek(t, resume) => Some(PlaybackReport { playing: *resume, position_secs: Some(*t) }),
        AudioCommand::SetVolume(_) => None,
        AudioCommand::SetOutputDevice(_) => None,
    }
}

} // verus!
