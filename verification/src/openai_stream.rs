//! OpenAI-schema models: their streamed chunks passed on, with usage kept
//! only when complete and reasoning text read from either field providers
//! use for it.
use vstd::prelude::*;

use crate::anthropic::{StreamAction, StreamStep};
use crate::chat_collect::{
    deltas_view, fn_delta_view, logprobs_view, tool_deltas_view, ChoiceDelta, DeltaView, FinishReason,
    FunctionCallDelta, Logprobs, Role, StreamChunk, ToolCallDelta, Usage,
};
use crate::error::opt_view;
use crate::text::eq_str;

verus! {

/// Token counts as a provider sends them: any may be missing.
#[derive(Clone, Copy, Debug)]
pub struct ProviderUsage {
    pub prompt_tokens: Option<u32>,
    pub completion_tokens: Option<u32>,
    pub total_tokens: Option<u32>,
}

/// A piece of a choice as a provider sends it; reasoning text may come
/// under `reasoning_content` or under `reasoning`.
#[derive(Debug)]
pub struct ProviderChoiceDelta<L> {
    pub index: u32,
    pub content: Option<String>,
    pub reasoning_content: Option<String>,
    pub reasoning: Option<String>,
    pub refusal: Option<String>,
    pub role: Option<Role>,
    pub function_call: Option<FunctionCallDelta>,
    pub tool_calls: Option<Vec<ToolCallDelta>>,
    pub finish_reason: Option<FinishReason>,
    pub logprobs: Option<Logprobs<L>>,
}

/// A chunk as a provider sends it.
#[derive(Debug)]
pub struct ProviderChunk<L> {
    pub id: String,
    pub created: u32,
    pub model: String,
    pub service_tier: Option<String>,
    pub system_fingerprint: Option<String>,
    pub object: String,
    pub usage: Option<ProviderUsage>,
    pub choices: Vec<ProviderChoiceDelta<L>>,
}

/// Usage passed on: only when all three counts are there.
pub open spec fn usage_spec(u: Option<ProviderUsage>) -> Option<Usage> {
    match u {
        Some(ProviderUsage { prompt_tokens: Some(p), completion_tokens: Some(c), total_tokens: Some(t) }) => Some(
            Usage { prompt_tokens: p, completion_tokens: c, total_tokens: t },
        ),
        _ => None,
    }
}

/// A choice piece passed on: the reasoning text is `reasoning_content`, or
/// `reasoning` when that is missing; everything else is kept.
pub open spec fn delta_spec<L>(d: ProviderChoiceDelta<L>) -> DeltaView<L> {
    DeltaView {
        index: d.index,
        content: opt_view(d.content),
        reasoning: match d.reasoning_content {
            Some(r) => Some(r@),
            None => opt_view(d.reasoning),
        },
        refusal: opt_view(d.refusal),
        role: d.role,
        function_call: fn_delta_view(d.function_call),
        tool_calls: match d.tool_calls {
            Some(t) => Some(tool_deltas_view(t@)),
            None => None,
        },
        finish_reason: d.finish_reason,
        logprobs: logprobs_view(d.logprobs),
    }
}

/// The choice pieces passed on, in order.
pub open spec fn deltas_spec<L>(v: Seq<ProviderChoiceDelta<L>>) -> Seq<DeltaView<L>> {
    v.map_values(|d: ProviderChoiceDelta<L>| delta_spec(d))
}

/// Passes on a choice piece.
fn map_delta<L>(d: ProviderChoiceDelta<L>) -> (r: ChoiceDelta<L>)
    ensures
        r@ == delta_spec(d),
{
    let reasoning_content = match d.reasoning_content {
        Some(r) => Some(r),
        None => d.reasoning,
    };
    ChoiceDelta {
        index: d.index,
        content: d.content,
        reasoning_content,
        refusal: d.refusal,
        role: d.role,
        function_call: d.function_call,
        tool_calls: d.tool_calls,
        finish_reason: d.finish_reason,
        logprobs: d.logprobs,
    }
}

/// Passes on a provider's chunk as a stream chunk.
pub fn map_provider_chunk<L>(chunk: ProviderChunk<L>) -> (r: StreamChunk<L>)
    ensures
        r.id == chunk.id,
        r.created == chunk.created,
        r.model == chunk.model,
        r.service_tier == chunk.service_tier,
        r.system_fingerprint == chunk.system_fingerprint,
        r.object == chunk.object,
        r.usage == usage_spec(chunk.usage),
        deltas_view(r.choices@) == deltas_spec(chunk.choices@),
{
    let ProviderChunk { id, created, model, service_tier, system_fingerprint, object, usage, choices } = chunk;
    let usage = match usage {
        Some(ProviderUsage { prompt_tokens: Some(p), completion_tokens: Some(c), total_tokens: Some(t) }) => Some(
            Usage { prompt_tokens: p, completion_tokens: c, total_tokens: t },
        ),
        _ => None,
    };
    let ghost original = choices@;
    let mut rest = choices;
    let mut out: Vec<ChoiceDelta<L>> = Vec::new();
    proof {
        assert(original.skip(0) =~= original);
        assert(deltas_view(out@) =~= deltas_spec(original.take(0)));
    }
    while rest.len() > 0
        invariant
            out@.len() + rest@.len() == original.len(),
            rest@ == original.skip(out@.len() as int),
            deltas_view(out@) == deltas_spec(original.take(out@.len() as int)),
        decreases rest@.len(),
    {
        let ghost k = out@.len() as int;
        let d = rest.remove(0);
        let ghost before = out@;
        out.push(map_delta(d));
        proof {
            assert(rest@ =~= original.skip(k + 1));
            assert(deltas_view(out@) =~= deltas_view(before).push(delta_spec(d)));
            assert(original.take(k + 1) =~= original.take(k).push(d));
            assert(deltas_spec(original.take(k + 1)) =~= deltas_spec(original.take(k)).push(delta_spec(d)));
        }
    }
    proof {
        assert(original.take(original.len() as int) =~= original);
    }
    StreamChunk { id, created, model, service_tier, system_fingerprint, object, usage, choices: out }
}

/// An event of an OpenAI-schema stream: a message carries its raw data and
/// what parsing that data as a chunk gave.
pub enum OpenAiStreamEvent<L> {
    /// The stream opened.
    Open,
    /// A message: its data, and the parsed chunk or the parser's complaint.
    Message { data: String, parsed: Result<ProviderChunk<L>, String> },
    /// The event source failed, with its description.
    Failure(String),
}

/// Handles one event of an OpenAI-schema stream: the end marker ends the
/// stream; a chunk is passed on; a message that does not parse and a failure
/// are reported and the stream goes on.
pub fn openai_stream_step<L>(event: OpenAiStreamEvent<L>) -> (r: StreamStep<L>)
    ensures
        match event {
            OpenAiStreamEvent::Open => r.action is Nothing && !r.stop,
            OpenAiStreamEvent::Failure(m) => r.action == StreamAction::<L>::Error(m) && !r.stop,
            OpenAiStreamEvent::Message { data, parsed } => if data@ == "[DONE]"@ {
                r.action is Done && r.stop
            } else {
                !r.stop && match parsed {
                    Ok(c) => r.action matches StreamAction::Chunk(out) && out.id == c.id && out.created == c.created
                        && out.model == c.model && out.service_tier == c.service_tier && out.system_fingerprint
                        == c.system_fingerprint && out.object == c.object && out.usage == usage_spec(c.usage)
                        && deltas_view(out.choices@) == deltas_spec(c.choices@),
                    Err(m) => r.action == StreamAction::<L>::Error(m),
                }
            },
        },
{
    match event {
        OpenAiStreamEvent::Open => StreamStep { action: StreamAction::Nothing, stop: false },
        OpenAiStreamEvent::Failure(m) => StreamStep { action: StreamAction::Error(m), stop: false },
        OpenAiStreamEvent::Message { data, parsed } => {
            if eq_str(data.as_str(), "[DONE]") {
                return StreamStep { action: StreamAction::Done, stop: true };
            }
            match parsed {
                Ok(c) => StreamStep { action: StreamAction::Chunk(map_provider_chunk(c)), stop: false },
                Err(m) => StreamStep { action: StreamAction::Error(m), stop: false },
            }
        },
    }
}

} // verus!
