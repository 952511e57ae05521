//! Decisions of the loopback ingress bridge. The HTTP listener decodes each
//! request body and hands the result here; what comes back is the reply and
//! the events to publish.
use vstd::prelude::*;
use crate::events::OverlayEvent;
use crate::payload::{LyricsData, LyricsEvent, ProgressData, ProgressEvent};

verus! {

/// Why a request body could not be decoded into a payload.
#[derive(Clone, Copy, Debug, PartialEq, Eq, Structural)]
pub enum PayloadError {
    /// The request did not declare a JSON body.
    MissingContentType,
    /// The body is not well-formed JSON.
    Syntax,
    /// The body is JSON but not of the payload's shape (a field is missing or
    /// has the wrong type).
    Shape,
}

/// The reply to an ingress request.
#[derive(Clone, Copy, Debug, PartialEq, Eq, Structural)]
pub enum IngressReply {
    /// The payload was taken; the reply body is `OK`.
    Accepted,
    /// The payload was refused with a client error.
    Rejected(PayloadError),
}

/// The HTTP status of a reply.
pub open spec fn reply_status(r: IngressReply) -> u16 {
    match r {
        IngressReply::Accepted => 200,
        IngressReply::Rejected(PayloadError::MissingContentType) => 415,
        IngressReply::Rejected(PayloadError::Syntax) => 400,
        IngressReply::Rejected(PayloadError::Shape) => 422,
    }
}

impl IngressReply {
    /// The HTTP status of this reply: 200 when accepted, a 4xx client error
    /// when rejected.
    pub fn status(&self) -> (r: u16)
        ensures
            r == reply_status(*self),
            matches!(*self, IngressReply::Rejected(_)) ==> 400 <= r < 500,
    {
        match self {
            IngressReply::Accepted => 200,
            IngressReply::Rejected(PayloadError::MissingContentType) => 415,
            IngressReply::Rejected(PayloadError::Syntax) => 400,
            IngressReply::Rejected(PayloadError::Shape) => 422,
        }
    }

    /// The reply body of an accepted request.
    pub fn ok_body() -> (r: &'static str)
        ensures
            r@ == "OK"@,
    {
        "OK"
    }
}

/// `POST /lyrics`: a decoded payload is published once as `lyrics-update`
/// and accepted; a body that could not be decoded is rejected and publishes
/// nothing.
pub fn handle_lyrics(body: Result<LyricsData, PayloadError>) -> (r: (IngressReply, Vec<OverlayEvent>))
    ensures
        match body {
            Ok(d) => r.0 == IngressReply::Accepted && r.1@ == seq![
                OverlayEvent::LyricsUpdate(LyricsEvent { lyrics_data: d }),
            ],
            Err(e) => r.0 == IngressReply::Rejected(e) && r.1@.len() == 0,
        },
{
    match body {
        Ok(lyrics_data) => {
            let mut events: Vec<OverlayEvent> = Vec::new();
            events.push(OverlayEvent::LyricsUpdate(LyricsEvent { lyrics_data }));
            (IngressReply::Accepted, events)
        },
        Err(e) => (IngressReply::Rejected(e), Vec::new()),
    }
}

/// `POST /progress`: a decoded payload is published once as
/// `progress-update` and accepted; a body that could not be decoded is
/// rejected and publishes nothing.
pub fn handle_progress(body: Result<ProgressData, PayloadError>) -> (r: (IngressReply, Vec<OverlayEvent>))
    ensures
        match body {
            Ok(d) => r.0 == IngressReply::Accepted && r.1@ == seq![
                OverlayEvent::ProgressUpdate(ProgressEvent { progress_data: d }),
            ],
            Err(e) => r.0 == IngressReply::Rejected(e) && r.1@.len() == 0,
        },
{
    match body {
        Ok(progress_data) => {
            let mut events: Vec<OverlayEvent> = Vec::new();
            events.push(OverlayEvent::ProgressUpdate(ProgressEvent { progress_data }));
            (IngressReply::Accepted, events)
        },
        Err(e) => (IngressReply::Rejected(e), Vec::new()),
    }
}

} // verus!
