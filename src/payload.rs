//! Value payloads that the media producer posts and the presentation layer
//! renders. They carry data only; nothing here is interpreted.
use vstd::prelude::*;

verus! {

/// The track that lyrics belong to.
#[derive(Clone, Debug, PartialEq, Eq)]
pub struct TrackInfo {
    pub title: String,
    pub artist: String,
    pub album: String,
    pub album_art: Option<String>,
    /// Track length in milliseconds.
    pub duration: u64,
}

/// One line of lyrics with its timing.
#[derive(Clone, Debug, PartialEq, Eq)]
pub struct LyricLine {
    /// Start of the line in milliseconds.
    pub start_time: i64,
    /// End of the line in milliseconds, when known.
    pub end_time: Option<i64>,
    /// The lyric text as sung.
    pub text: String,
    /// Phonetic or romanized rendering.
    pub pron_text: Option<String>,
    /// Translation.
    pub trans_text: Option<String>,
}

/// A complete set of lyrics for one track.
#[derive(Clone, Debug, PartialEq, Eq)]
pub struct LyricsData {
    pub track: TrackInfo,
    pub lyrics: Vec<LyricLine>,
    pub is_synced: bool,
}

/// Preview of the track that plays next.
#[derive(Clone, Debug, PartialEq, Eq)]
pub struct NextTrackInfo {
    pub title: String,
    pub artist: String,
    pub album_art: Option<String>,
}

/// Playback progress of the current track.
#[derive(Clone, Debug, PartialEq, Eq)]
pub struct ProgressData {
    /// Playback position in milliseconds.
    pub position: u64,
    pub is_playing: bool,
    /// Track length in milliseconds.
    pub duration: Option<u64>,
    /// Remaining time as the producer sent it, a binary64 floating-point
    /// number kept as its IEEE 754 bit pattern so that it passes through
    /// unchanged.
    pub remaining_bits: Option<u64>,
    pub next_track: Option<NextTrackInfo>,
}

/// Payload of the `lyrics-update` event.
#[derive(Clone, Debug, PartialEq, Eq)]
pub struct LyricsEvent {
    pub lyrics_data: LyricsData,
}

/// Payload of the `progress-update` event.
#[derive(Clone, Debug, PartialEq, Eq)]
pub struct ProgressEvent {
    pub progress_data: ProgressData,
}

} // verus!
