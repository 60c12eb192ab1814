//! Forwarding a provider's chat stream to a client as server-sent events:
//! chunks pass, the end marker ends the stream, and a failure or an early
//! end is reported in OpenAI's error shape before the end marker.
use vstd::prelude::*;

use crate::chat_collect::StreamChunk;
use crate::error::{opt_view, with_message_spec, ErrorBody, ErrorBodyView, ErrorResponse, ErrorResponseView};
use crate::text::owned;

verus! {

/// What the provider's stream gives next.
pub enum ProviderStreamEvent<L> {
    /// A chunk of the completion.
    Chunk(StreamChunk<L>),
    /// The end marker.
    Done,
    /// The stream failed, with the error's description.
    Failed(String),
    /// The stream closed without an end marker.
    Closed,
}

/// One event sent to the client.
pub enum SseFrame<L> {
    /// A chunk, as JSON data.
    Chunk(StreamChunk<L>),
    /// An error answer, as JSON data.
    Error(ErrorResponse),
    /// The error sent when the provider's stream closed early:
    /// `{"error": {"message": ..., "type": "provider_error"}}`.
    ClosedEarly { message: String, error_type: String },
    /// The "[DONE]" marker.
    Done,
}

/// The error answer for a failed provider stream.
pub open spec fn stream_failure_spec(message: Seq<char>) -> ErrorResponseView {
    with_message_spec(
        ErrorBodyView {
            message: message,
            error_type: "server_error"@,
            param: None,
            code: Some("provider_stream_error"@),
        },
    )
}

/// What is sent for one event of the provider's stream, and whether the
/// stream to the client ends with it.
pub fn forward_stream_event<L>(event: ProviderStreamEvent<L>) -> (r: (Vec<SseFrame<L>>, bool))
    ensures
        r.1 ==> r.0@.len() > 0 && r.0@.last() is Done,
        match event {
            ProviderStreamEvent::Chunk(c) => !r.1 && r.0@.len() == 1 && r.0@[0] == SseFrame::Chunk(c),
            ProviderStreamEvent::Done => r.1 && r.0@.len() == 1 && r.0@[0] is Done,
            ProviderStreamEvent::Failed(m) => {
                &&& r.1 && r.0@.len() == 2 && r.0@[1] is Done
                &&& r.0@[0] matches SseFrame::Error(e) && e@ == stream_failure_spec(m@)
            },
            ProviderStreamEvent::Closed => {
                &&& r.1 && r.0@.len() == 2 && r.0@[1] is Done
                &&& r.0@[0] matches SseFrame::ClosedEarly { message, error_type } && message@
                    == "Provider chat stream closed before its completion marker"@ && error_type@ == "provider_error"@
            },
        },
{
    let mut frames: Vec<SseFrame<L>> = Vec::new();
    match event {
        ProviderStreamEvent::Chunk(c) => {
            frames.push(SseFrame::Chunk(c));
            (frames, false)
        },
        ProviderStreamEvent::Done => {
            frames.push(SseFrame::Done);
            (frames, true)
        },
        ProviderStreamEvent::Failed(m) => {
            let body = ErrorBody::new(m, owned("server_error"), None, Some(owned("provider_stream_error")));
            frames.push(SseFrame::Error(ErrorResponse::new(body)));
            frames.push(SseFrame::Done);
            (frames, true)
        },
        ProviderStreamEvent::Closed => {
            frames.push(
                SseFrame::ClosedEarly {
                    message: owned("Provider chat stream closed before its completion marker"),
                    error_type: owned("provider_error"),
                },
            );
            frames.push(SseFrame::Done);
            (frames, true)
        },
    }
}

} // verus!
