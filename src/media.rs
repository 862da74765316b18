use vstd::prelude::*;

verus! {

/// Playback state of the system's current media session.
#[derive(Clone, Copy, Debug, PartialEq, Eq, Structural)]
pub enum PlaybackStatus {
    Closed,
    Opened,
    Changing,
    Stopped,
    Playing,
    Paused,
}

/// What is playing, as shown to widgets.
#[derive(Clone, Debug)]
pub struct MediaInfo {
    pub title: Option<String>,
    pub artist: Option<String>,
    pub album: Option<String>,
    /// "playing", "paused", "stopped" or "unknown".
    pub playback_status: String,
    pub source_app: Option<String>,
}

pub open spec fn status_text(s: Option<PlaybackStatus>) -> Seq<char> {
    match s {
        Some(PlaybackStatus::Playing) => "playing"@,
        Some(PlaybackStatus::Paused) => "paused"@,
        Some(PlaybackStatus::Stopped) => "stopped"@,
        Some(PlaybackStatus::Closed) => "stopped"@,
        _ => "unknown"@,
    }
}

/// The name of a playback state; a closed session counts as stopped, and a state that
/// could not be read, or any other, as unknown.
pub fn playback_status_name(s: Option<PlaybackStatus>) -> (r: &'static str)
    ensures
        r@ == status_text(s),
{
    match s {
        Some(PlaybackStatus::Playing) => "playing",
        Some(PlaybackStatus::Paused) => "paused",
        Some(PlaybackStatus::Stopped) => "stopped",
        Some(PlaybackStatus::Closed) => "stopped",
        _ => "unknown",
    }
}

/// A text property of the session, absent when it is empty.
pub fn non_empty(s: Option<String>) -> (r: Option<String>)
    ensures
        r is Some <==> (s is Some && s.unwrap()@.len() > 0),
        r matches Some(t) ==> t@ == s.unwrap()@,
{
    match s {
        Some(t) => {
            if t.as_str().unicode_len() == 0 {
                None
            } else {
                Some(t)
            }
        },
        None => None,
    }
}

/// What is reported of a session's properties.
pub fn media_info(
    title: Option<String>,
    artist: Option<String>,
    album: Option<String>,
    status: Option<PlaybackStatus>,
    source_app: Option<String>,
) -> (r: MediaInfo)
    ensures
        r.playback_status@ == status_text(status),
        r.title is Some <==> (title is Some && title.unwrap()@.len() > 0),
        r.title matches Some(t) ==> t@ == title.unwrap()@,
        r.artist is Some <==> (artist is Some && artist.unwrap()@.len() > 0),
        r.artist matches Some(t) ==> t@ == artist.unwrap()@,
        r.album is Some <==> (album is Some && album.unwrap()@.len() > 0),
        r.album matches Some(t) ==> t@ == album.unwrap()@,
        r.source_app is Some <==> (source_app is Some && source_app.unwrap()@.len() > 0),
        r.source_app matches Some(t) ==> t@ == source_app.unwrap()@,
{
    MediaInfo {
        title: non_empty(title),
        artist: non_empty(artist),
        album: non_empty(album),
        playback_status: playback_status_name(status).to_string(),
        source_app: non_empty(source_app),
    }
}

/// What is reported when there is no media session at all: stopped, nothing else known.
pub fn no_session_media_info() -> (r: MediaInfo)
    ensures
        r.playback_status@ == "stopped"@,
        r.title is None && r.artist is None && r.album is None && r.source_app is None,
{
    MediaInfo { title: None, artist: None, album: None, playback_status: "stopped".to_string(), source_app: None }
}

} // verus!
