use lyrics_overlay::events::OverlayEvent;
use lyrics_overlay::ingress::{handle_lyrics, handle_progress, IngressReply, PayloadError};
use lyrics_overlay::payload::{
    LyricLine, LyricsData, LyricsEvent, NextTrackInfo, ProgressData, ProgressEvent, TrackInfo,
};

fn progress(position: u64, is_playing: bool) -> ProgressData {
    ProgressData {
        position,
        is_playing,
        duration: None,
        remaining_bits: None,
        next_track: None,
    }
}

#[test]
fn valid_progress_is_published_once() {
    let (reply, events) = handle_progress(Ok(progress(42000, true)));
    assert_eq!(reply, IngressReply::Accepted);
    assert_eq!(reply.status(), 200);
    assert_eq!(IngressReply::ok_body(), "OK");
    assert_eq!(
        events,
        vec![OverlayEvent::ProgressUpdate(ProgressEvent { progress_data: progress(42000, true) })]
    );
    assert_eq!(events[0].name(), "progress-update");
}

#[test]
fn progress_with_all_fields_passes_through_unchanged() {
    let data = ProgressData {
        position: 1,
        is_playing: false,
        duration: Some(180000),
        remaining_bits: Some(179999.5f64.to_bits()),
        next_track: Some(NextTrackInfo {
            title: "Next".to_string(),
            artist: "Someone".to_string(),
            album_art: None,
        }),
    };
    let (_, events) = handle_progress(Ok(data.clone()));
    match &events[..] {
        [OverlayEvent::ProgressUpdate(e)] => {
            assert_eq!(e.progress_data, data);
            assert_eq!(f64::from_bits(e.progress_data.remaining_bits.unwrap()), 179999.5);
        }
        _ => panic!("expected one progress event"),
    }
}

#[test]
fn malformed_progress_is_rejected_without_events() {
    let (reply, events) = handle_progress(Err(PayloadError::Syntax));
    assert_eq!(reply, IngressReply::Rejected(PayloadError::Syntax));
    assert_eq!(reply.status(), 400);
    assert!(events.is_empty());

    let (reply, events) = handle_progress(Err(PayloadError::Shape));
    assert_eq!(reply.status(), 422);
    assert!(events.is_empty());

    let (reply, events) = handle_progress(Err(PayloadError::MissingContentType));
    assert_eq!(reply.status(), 415);
    assert!(events.is_empty());
}

#[test]
fn valid_lyrics_are_published_once() {
    let data = LyricsData {
        track: TrackInfo {
            title: "Song".to_string(),
            artist: "Artist".to_string(),
            album: "Album".to_string(),
            album_art: Some("https://example.invalid/art.png".to_string()),
            duration: 200000,
        },
        lyrics: vec![
            LyricLine {
                start_time: 0,
                end_time: Some(1500),
                text: "first".to_string(),
                pron_text: None,
                trans_text: Some("premier".to_string()),
            },
            LyricLine {
                start_time: 1500,
                end_time: None,
                text: "second".to_string(),
                pron_text: Some("se-cond".to_string()),
                trans_text: None,
            },
        ],
        is_synced: true,
    };
    let (reply, events) = handle_lyrics(Ok(data.clone()));
    assert_eq!(reply, IngressReply::Accepted);
    assert_eq!(events, vec![OverlayEvent::LyricsUpdate(LyricsEvent { lyrics_data: data })]);
    assert_eq!(events[0].name(), "lyrics-update");
}

#[test]
fn malformed_lyrics_are_rejected_without_events() {
    let (reply, events) = handle_lyrics(Err(PayloadError::Shape));
    assert_eq!(reply, IngressReply::Rejected(PayloadError::Shape));
    assert!(events.is_empty());
}
