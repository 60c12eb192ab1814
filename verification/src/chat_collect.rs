//! Collecting a streamed chat completion into one completion: the fragments
//! of each choice are joined in the order they arrived, the last role and
//! finish reason win, tool calls are gathered by their index, and the
//! completion is accepted only once the stream ended properly.
use vstd::prelude::*;

use crate::entries::{entries_view, find_slot, keys_sorted, lemma_upsert_absent, lemma_upsert_found,
    lemma_view_insert, lemma_view_keys, lemma_view_update, lookup, upsert, Slot};
use crate::error::{opt_view, ShaideError};
use crate::text::owned;

verus! {

/// Who wrote a message.
#[derive(Clone, Copy, Debug, PartialEq, Eq)]
pub enum Role {
    System,
    User,
    Assistant,
    Tool,
    Function,
    Developer,
}

/// Why a choice stopped.
#[derive(Clone, Copy, Debug, PartialEq, Eq)]
pub enum FinishReason {
    Stop,
    Length,
    ToolCalls,
    ContentFilter,
    FunctionCall,
}

/// Token counts of a completion.
#[derive(Clone, Copy, Debug, PartialEq, Eq)]
pub struct Usage {
    pub prompt_tokens: u32,
    pub completion_tokens: u32,
    pub total_tokens: u32,
}

/// A piece of a function call.
#[derive(Debug)]
pub struct FunctionCallDelta {
    pub name: Option<String>,
    pub arguments: Option<String>,
}

/// A piece of a tool call, for the tool call at `index`.
#[derive(Debug)]
pub struct ToolCallDelta {
    pub index: u32,
    pub id: Option<String>,
    pub function: Option<FunctionCallDelta>,
}

/// Log probabilities of content and refusal tokens.
#[derive(Debug)]
pub struct Logprobs<L> {
    pub content: Option<Vec<L>>,
    pub refusal: Option<Vec<L>>,
}

/// A piece of the choice at `index`.
#[derive(Debug)]
pub struct ChoiceDelta<L> {
    pub index: u32,
    pub content: Option<String>,
    pub reasoning_content: Option<String>,
    pub refusal: Option<String>,
    pub role: Option<Role>,
    pub function_call: Option<FunctionCallDelta>,
    pub tool_calls: Option<Vec<ToolCallDelta>>,
    pub finish_reason: Option<FinishReason>,
    pub logprobs: Option<Logprobs<L>>,
}

/// One chunk of a streamed chat completion.
#[derive(Debug)]
pub struct StreamChunk<L> {
    pub id: String,
    pub created: u32,
    pub model: String,
    pub service_tier: Option<String>,
    pub system_fingerprint: Option<String>,
    pub object: String,
    pub usage: Option<Usage>,
    pub choices: Vec<ChoiceDelta<L>>,
}

/// An optional text.
pub type OptText = Option<Seq<char>>;

/// The view of optional log probabilities.
pub open spec fn logprobs_view<L>(l: Option<Logprobs<L>>) -> Option<(Option<Seq<L>>, Option<Seq<L>>)> {
    match l {
        Some(lp) => Some((opt_vec(lp.content), opt_vec(lp.refusal))),
        None => None,
    }
}

/// The view of an optional vector.
pub open spec fn opt_vec<L>(v: Option<Vec<L>>) -> Option<Seq<L>> {
    match v {
        Some(v) => Some(v@),
        None => None,
    }
}

/// The view of an optional function call piece.
pub open spec fn fn_delta_view(f: Option<FunctionCallDelta>) -> Option<(OptText, OptText)> {
    match f {
        Some(f) => Some((opt_view(f.name), opt_view(f.arguments))),
        None => None,
    }
}

/// The abstract content of a tool call piece.
pub struct ToolDeltaView {
    pub index: u32,
    pub id: OptText,
    pub function: Option<(OptText, OptText)>,
}

impl View for ToolCallDelta {
    type V = ToolDeltaView;

    open spec fn view(&self) -> ToolDeltaView {
        ToolDeltaView { index: self.index, id: opt_view(self.id), function: fn_delta_view(self.function) }
    }
}

/// The views of tool call pieces.
pub open spec fn tool_deltas_view(v: Seq<ToolCallDelta>) -> Seq<ToolDeltaView> {
    v.map_values(|d: ToolCallDelta| d@)
}

/// The abstract content of a choice piece.
pub struct DeltaView<L> {
    pub index: u32,
    pub content: OptText,
    pub reasoning: OptText,
    pub refusal: OptText,
    pub role: Option<Role>,
    pub function_call: Option<(OptText, OptText)>,
    pub tool_calls: Option<Seq<ToolDeltaView>>,
    pub finish_reason: Option<FinishReason>,
    pub logprobs: Option<(Option<Seq<L>>, Option<Seq<L>>)>,
}

impl<L> View for ChoiceDelta<L> {
    type V = DeltaView<L>;

    open spec fn view(&self) -> DeltaView<L> {
        DeltaView {
            index: self.index,
            content: opt_view(self.content),
            reasoning: opt_view(self.reasoning_content),
            refusal: opt_view(self.refusal),
            role: self.role,
            function_call: fn_delta_view(self.function_call),
            tool_calls: match self.tool_calls {
                Some(t) => Some(tool_deltas_view(t@)),
                None => None,
            },
            finish_reason: self.finish_reason,
            logprobs: logprobs_view(self.logprobs),
        }
    }
}

/// The views of choice pieces.
pub open spec fn deltas_view<L>(v: Seq<ChoiceDelta<L>>) -> Seq<DeltaView<L>> {
    v.map_values(|d: ChoiceDelta<L>| d@)
}

/// The abstract content of a chunk.
pub struct ChunkView<L> {
    pub id: Seq<char>,
    pub created: u32,
    pub service_tier: OptText,
    pub fingerprint: OptText,
    pub usage: Option<Usage>,
    pub choices: Seq<DeltaView<L>>,
}

impl<L> View for StreamChunk<L> {
    type V = ChunkView<L>;

    open spec fn view(&self) -> ChunkView<L> {
        ChunkView {
            id: self.id@,
            created: self.created,
            service_tier: opt_view(self.service_tier),
            fingerprint: opt_view(self.system_fingerprint),
            usage: self.usage,
            choices: deltas_view(self.choices@),
        }
    }
}

/// `target` with `fragment` appended, when there is one.
pub open spec fn append_spec(target: OptText, fragment: OptText) -> OptText {
    match fragment {
        None => target,
        Some(f) => Some(
            match target {
                Some(t) => t,
                None => Seq::empty(),
            } + f,
        ),
    }
}

/// `target` with `items` appended, when there are some.
pub open spec fn append_items_spec<T>(target: Option<Seq<T>>, items: Option<Seq<T>>) -> Option<Seq<T>> {
    match items {
        None => target,
        Some(f) => Some(
            match target {
                Some(t) => t,
                None => Seq::empty(),
            } + f,
        ),
    }
}

/// Appends a text fragment, starting the text when it is absent.
pub fn append_fragment(target: &mut Option<String>, fragment: Option<String>)
    ensures
        opt_view(*final(target)) == append_spec(opt_view(*old(target)), opt_view(fragment)),
{
    match fragment {
        None => {},
        Some(f) => {
            let current = target.take();
            let joined = match current {
                Some(mut s) => {
                    s.append(f.as_str());
                    s
                },
                None => {
                    proof {
                        assert(Seq::<char>::empty() + f@ =~= f@);
                    }
                    f
                },
            };
            *target = Some(joined);
        },
    }
}

/// Appends items, starting the list when it is absent.
pub fn append_items<T>(target: &mut Option<Vec<T>>, items: Option<Vec<T>>)
    ensures
        opt_vec(*final(target)) == append_items_spec(opt_vec(*old(target)), opt_vec(items)),
{
    match items {
        None => {},
        Some(mut items) => {
            let current = target.take();
            let joined = match current {
                Some(mut v) => {
                    v.append(&mut items);
                    v
                },
                None => {
                    proof {
                        assert(Seq::<T>::empty() + items@ =~= items@);
                    }
                    items
                },
            };
            *target = Some(joined);
        },
    }
}

/// A function call being assembled.
pub struct FunctionCallAccumulator {
    pub name: Option<String>,
    pub arguments: Option<String>,
}

impl View for FunctionCallAccumulator {
    type V = (OptText, OptText);

    open spec fn view(&self) -> (OptText, OptText) {
        (opt_view(self.name), opt_view(self.arguments))
    }
}

/// A function call with a piece added.
pub open spec fn fn_push_spec(a: (OptText, OptText), d: (OptText, OptText)) -> (OptText, OptText) {
    (append_spec(a.0, d.0), append_spec(a.1, d.1))
}

/// The function call assembled so far, if any piece of it arrived.
pub open spec fn fn_finish_spec(a: (OptText, OptText)) -> Option<(Seq<char>, Seq<char>)> {
    if a.0 is Some || a.1 is Some {
        Some((a.0.unwrap_or(Seq::empty()), a.1.unwrap_or(Seq::empty())))
    } else {
        None
    }
}

/// A complete function call.
#[derive(Debug)]
pub struct FunctionCall {
    pub name: String,
    pub arguments: String,
}

/// The view of an optional function call.
pub open spec fn fn_call_view(f: Option<FunctionCall>) -> Option<(Seq<char>, Seq<char>)> {
    match f {
        Some(f) => Some((f.name@, f.arguments@)),
        None => None,
    }
}

/// A text, or empty.
pub fn text_or_empty(t: Option<String>) -> (r: String)
    ensures
        r@ == opt_view(t).unwrap_or(Seq::empty()),
{
    match t {
        Some(t) => t,
        None => String::new(),
    }
}

impl FunctionCallAccumulator {
    /// Nothing gathered yet.
    pub fn new() -> (r: Self)
        ensures
            r@ == (None::<Seq<char>>, None::<Seq<char>>),
    {
        FunctionCallAccumulator { name: None, arguments: None }
    }

    /// Adds a piece of the call.
    pub fn push(&mut self, function: FunctionCallDelta)
        ensures
            final(self)@ == fn_push_spec(old(self)@, (opt_view(function.name), opt_view(function.arguments))),
    {
        append_fragment(&mut self.name, function.name);
        append_fragment(&mut self.arguments, function.arguments);
    }

    /// The call, when any piece of it arrived.
    pub fn finish(self) -> (r: Option<FunctionCall>)
        ensures
            fn_call_view(r) == fn_finish_spec(self@),
    {
        if self.name.is_some() || self.arguments.is_some() {
            Some(FunctionCall { name: text_or_empty(self.name), arguments: text_or_empty(self.arguments) })
        } else {
            None
        }
    }
}

/// A tool call being assembled.
pub struct ToolCallAccumulator {
    pub id: Option<String>,
    pub function: FunctionCallAccumulator,
}

/// The abstract content of a tool call being assembled.
pub struct ToolAccView {
    pub id: OptText,
    pub function: (OptText, OptText),
}

impl View for ToolCallAccumulator {
    type V = ToolAccView;

    open spec fn view(&self) -> ToolAccView {
        ToolAccView { id: opt_view(self.id), function: self.function@ }
    }
}

/// A tool call with nothing gathered.
pub open spec fn default_tool() -> ToolAccView {
    ToolAccView { id: None, function: (None, None) }
}

/// A tool call with a piece added: a new id replaces the old one.
pub open spec fn tool_push_spec(a: ToolAccView, id: OptText, f: Option<(OptText, OptText)>) -> ToolAccView {
    ToolAccView {
        id: if id is Some {
            id
        } else {
            a.id
        },
        function: match f {
            Some(fd) => fn_push_spec(a.function, fd),
            None => a.function,
        },
    }
}

/// A complete tool call.
#[derive(Debug)]
pub struct ToolCall {
    pub id: String,
    pub function: FunctionCall,
}

/// The abstract content of a complete tool call.
pub open spec fn tool_call_view(t: ToolCall) -> (Seq<char>, (Seq<char>, Seq<char>)) {
    (t.id@, (t.function.name@, t.function.arguments@))
}

/// A tool call's final form: missing parts are empty.
pub open spec fn tool_finish_spec(a: ToolAccView) -> (Seq<char>, (Seq<char>, Seq<char>)) {
    (
        a.id.unwrap_or(Seq::empty()),
        fn_finish_spec(a.function).unwrap_or((Seq::empty(), Seq::empty())),
    )
}

impl ToolCallAccumulator {
    /// Nothing gathered yet.
    pub fn new() -> (r: Self)
        ensures
            r@ == default_tool(),
    {
        ToolCallAccumulator { id: None, function: FunctionCallAccumulator::new() }
    }

    /// Adds a piece of the call.
    pub fn push(&mut self, id: Option<String>, function: Option<FunctionCallDelta>)
        ensures
            final(self)@ == tool_push_spec(old(self)@, opt_view(id), fn_delta_view(function)),
    {
        if id.is_some() {
            self.id = id;
        }
        match function {
            Some(function) => self.function.push(function),
            None => {},
        }
    }

    /// The complete call.
    pub fn finish(self) -> (r: ToolCall)
        ensures
            tool_call_view(r) == tool_finish_spec(self@),
    {
        let function = match self.function.finish() {
            Some(f) => f,
            None => FunctionCall { name: String::new(), arguments: String::new() },
        };
        ToolCall { id: text_or_empty(self.id), function }
    }
}

/// Tool call pieces gathered by index, in arrival order.
pub open spec fn tools_fold(entries: Seq<(u32, ToolAccView)>, deltas: Seq<ToolDeltaView>) -> Seq<(u32, ToolAccView)>
    decreases deltas.len(),
{
    if deltas.len() == 0 {
        entries
    } else {
        let prev = tools_fold(entries, deltas.drop_last());
        let d = deltas.last();
        upsert(prev, d.index, tool_push_spec(lookup(prev, d.index).unwrap_or(default_tool()), d.id, d.function))
    }
}

/// A choice being assembled.
pub struct ChoiceAccumulator<L> {
    pub content: Option<String>,
    pub reasoning_content: Option<String>,
    pub refusal: Option<String>,
    pub role: Option<Role>,
    pub function_call: FunctionCallAccumulator,
    pub tool_calls: Vec<(u32, ToolCallAccumulator)>,
    pub finish_reason: Option<FinishReason>,
    pub logprobs: Option<Logprobs<L>>,
}

/// The abstract content of a choice being assembled.
pub struct ChoiceAccView<L> {
    pub content: OptText,
    pub reasoning: OptText,
    pub refusal: OptText,
    pub role: Option<Role>,
    pub function_call: (OptText, OptText),
    pub tool_calls: Seq<(u32, ToolAccView)>,
    pub finish_reason: Option<FinishReason>,
    pub logprobs: Option<(Option<Seq<L>>, Option<Seq<L>>)>,
}

impl<L> View for ChoiceAccumulator<L> {
    type V = ChoiceAccView<L>;

    open spec fn view(&self) -> ChoiceAccView<L> {
        ChoiceAccView {
            content: opt_view(self.content),
            reasoning: opt_view(self.reasoning_content),
            refusal: opt_view(self.refusal),
            role: self.role,
            function_call: self.function_call@,
            tool_calls: entries_view(self.tool_calls@),
            finish_reason: self.finish_reason,
            logprobs: logprobs_view(self.logprobs),
        }
    }
}

/// A choice with nothing gathered.
pub open spec fn default_choice<L>() -> ChoiceAccView<L> {
    ChoiceAccView {
        content: None,
        reasoning: None,
        refusal: None,
        role: None,
        function_call: (None, None),
        tool_calls: Seq::empty(),
        finish_reason: None,
        logprobs: None,
    }
}

/// A choice with a piece added.
pub open spec fn choice_push_spec<L>(a: ChoiceAccView<L>, d: DeltaView<L>) -> ChoiceAccView<L> {
    ChoiceAccView {
        content: append_spec(a.content, d.content),
        reasoning: append_spec(a.reasoning, d.reasoning),
        refusal: append_spec(a.refusal, d.refusal),
        role: if d.role is Some {
            d.role
        } else {
            a.role
        },
        function_call: match d.function_call {
            Some(f) => fn_push_spec(a.function_call, f),
            None => a.function_call,
        },
        tool_calls: match d.tool_calls {
            Some(ts) => tools_fold(a.tool_calls, ts),
            None => a.tool_calls,
        },
        finish_reason: if d.finish_reason is Some {
            d.finish_reason
        } else {
            a.finish_reason
        },
        logprobs: match d.logprobs {
            Some(lp) => {
                let acc = match a.logprobs {
                    Some(x) => x,
                    None => (None, None),
                };
                Some((append_items_spec(acc.0, lp.0), append_items_spec(acc.1, lp.1)))
            },
            None => a.logprobs,
        },
    }
}

/// The message of a collected choice.
#[derive(Debug)]
pub struct CollectedMessage {
    pub content: Option<String>,
    pub refusal: Option<String>,
    pub tool_calls: Option<Vec<ToolCall>>,
    pub role: Role,
    pub function_call: Option<FunctionCall>,
    pub reasoning_content: Option<String>,
}

/// A collected choice.
#[derive(Debug)]
pub struct CollectedChoice<L> {
    pub index: u32,
    pub message: CollectedMessage,
    pub finish_reason: Option<FinishReason>,
    pub logprobs: Option<Logprobs<L>>,
}

/// The abstract content of a collected choice.
pub struct CollectedChoiceView<L> {
    pub index: u32,
    pub content: OptText,
    pub refusal: OptText,
    pub tool_calls: Option<Seq<(Seq<char>, (Seq<char>, Seq<char>))>>,
    pub role: Role,
    pub function_call: Option<(Seq<char>, Seq<char>)>,
    pub reasoning: OptText,
    pub finish_reason: Option<FinishReason>,
    pub logprobs: Option<(Option<Seq<L>>, Option<Seq<L>>)>,
}

/// The views of complete tool calls.
pub open spec fn tool_calls_view(v: Seq<ToolCall>) -> Seq<(Seq<char>, (Seq<char>, Seq<char>))> {
    v.map_values(|t: ToolCall| tool_call_view(t))
}

impl<L> View for CollectedChoice<L> {
    type V = CollectedChoiceView<L>;

    open spec fn view(&self) -> CollectedChoiceView<L> {
        CollectedChoiceView {
            index: self.index,
            content: opt_view(self.message.content),
            refusal: opt_view(self.message.refusal),
            tool_calls: match self.message.tool_calls {
                Some(t) => Some(tool_calls_view(t@)),
                None => None,
            },
            role: self.message.role,
            function_call: fn_call_view(self.message.function_call),
            reasoning: opt_view(self.message.reasoning_content),
            finish_reason: self.finish_reason,
            logprobs: logprobs_view(self.logprobs),
        }
    }
}

/// The final tool calls of a choice, in index order.
pub open spec fn tools_finish_spec(entries: Seq<(u32, ToolAccView)>) -> Seq<(Seq<char>, (Seq<char>, Seq<char>))> {
    entries.map_values(|e: (u32, ToolAccView)| tool_finish_spec(e.1))
}

/// A choice's final form: the assistant role unless another arrived, tool
/// calls only when there are some.
pub open spec fn choice_finish_spec<L>(index: u32, a: ChoiceAccView<L>) -> CollectedChoiceView<L> {
    CollectedChoiceView {
        index: index,
        content: a.content,
        refusal: a.refusal,
        tool_calls: if a.tool_calls.len() == 0 {
            None
        } else {
            Some(tools_finish_spec(a.tool_calls))
        },
        role: match a.role {
            Some(r) => r,
            None => Role::Assistant,
        },
        function_call: fn_finish_spec(a.function_call),
        reasoning: a.reasoning,
        finish_reason: a.finish_reason,
        logprobs: a.logprobs,
    }
}

/// Adds one tool call piece to tool calls kept in index order.
fn push_tool_delta(entries: &mut Vec<(u32, ToolCallAccumulator)>, delta: ToolCallDelta)
    requires
        keys_sorted(old(entries)@),
    ensures
        keys_sorted(final(entries)@),
        entries_view(final(entries)@) == ({
            let prev = entries_view(old(entries)@);
            upsert(prev, delta@.index, tool_push_spec(lookup(prev, delta@.index).unwrap_or(default_tool()), delta@.id, delta@.function))
        }),
{
    let ghost d = delta@;
    proof {
        lemma_view_keys(entries@);
    }
    let ghost prev = entries_view(entries@);
    match find_slot(entries, delta.index) {
        Slot::Found(pos) => {
            let (key, mut acc) = entries.remove(pos);
            let ghost before = acc@;
            acc.push(delta.id, delta.function);
            let ghost removed = entries@;
            entries.insert(pos, (key, acc));
            proof {
                assert(entries@ =~= old(entries)@.update(pos as int, (key, acc)));
                lemma_view_update(old(entries)@, pos as int, (key, acc));
                assert(prev[pos as int] == (key, before));
                lemma_upsert_found(prev, d.index, tool_push_spec(before, d.id, d.function), pos as int);
                lemma_view_keys(entries@);
            }
        },
        Slot::Gap(pos) => {
            let mut acc = ToolCallAccumulator::new();
            let key = delta.index;
            acc.push(delta.id, delta.function);
            entries.insert(pos, (key, acc));
            proof {
                lemma_view_insert(old(entries)@, pos as int, (key, acc));
                assert forall|j: int| 0 <= j < pos implies prev[j].0 < d.index by {
                    assert(prev[j].0 == old(entries)@[j].0);
                }
                assert forall|j: int| pos <= j < prev.len() implies prev[j].0 > d.index by {
                    assert(prev[j].0 == old(entries)@[j].0);
                }
                lemma_upsert_absent(prev, d.index, tool_push_spec(default_tool(), d.id, d.function), pos as int);
                lemma_view_keys(entries@);
            }
        },
    }
}

/// Adds tool call pieces, in order.
fn push_tool_deltas(entries: &mut Vec<(u32, ToolCallAccumulator)>, tool_calls: Vec<ToolCallDelta>)
    requires
        keys_sorted(old(entries)@),
    ensures
        keys_sorted(final(entries)@),
        entries_view(final(entries)@) == tools_fold(entries_view(old(entries)@), tool_deltas_view(tool_calls@)),
{
    let ghost start = entries_view(entries@);
    let ghost all = tool_deltas_view(tool_calls@);
    for tool_call in it: tool_calls
        invariant
            keys_sorted(entries@),
            all == tool_deltas_view(it.seq()),
            entries_view(entries@) == tools_fold(start, all.take(it.index() as int)),
    {
        let ghost i = it.index();
        proof {
            assert(all.take(i + 1).drop_last() == all.take(i as int));
            assert(all.take(i + 1).last() == tool_call@);
        }
        push_tool_delta(entries, tool_call);
    }
    proof {
        assert(all.take(all.len() as int) == all);
    }
}

impl<L> ChoiceAccumulator<L> {
    /// Nothing gathered yet.
    pub fn new() -> (r: Self)
        ensures
            r@ == default_choice::<L>(),
            keys_sorted(r.tool_calls@),
    {
        let r = ChoiceAccumulator {
            content: None,
            reasoning_content: None,
            refusal: None,
            role: None,
            function_call: FunctionCallAccumulator::new(),
            tool_calls: Vec::new(),
            finish_reason: None,
            logprobs: None,
        };
        proof {
            assert(entries_view(r.tool_calls@) =~= Seq::<(u32, ToolAccView)>::empty());
        }
        r
    }

    /// Adds a piece of this choice.
    pub fn push(&mut self, choice: ChoiceDelta<L>)
        requires
            keys_sorted(old(self).tool_calls@),
        ensures
            keys_sorted(final(self).tool_calls@),
            final(self)@ == choice_push_spec(old(self)@, choice@),
    {
        let ghost d = choice@;
        append_fragment(&mut self.content, choice.content);
        append_fragment(&mut self.reasoning_content, choice.reasoning_content);
        append_fragment(&mut self.refusal, choice.refusal);
        if choice.role.is_some() {
            self.role = choice.role;
        }
        match choice.function_call {
            Some(function_call) => self.function_call.push(function_call),
            None => {},
        }
        match choice.tool_calls {
            Some(tool_calls) => push_tool_deltas(&mut self.tool_calls, tool_calls),
            None => {},
        }
        if choice.finish_reason.is_some() {
            self.finish_reason = choice.finish_reason;
        }
        match choice.logprobs {
            Some(logprobs) => {
                let mut accumulated = match self.logprobs.take() {
                    Some(x) => x,
                    None => Logprobs { content: None, refusal: None },
                };
                append_items(&mut accumulated.content, logprobs.content);
                append_items(&mut accumulated.refusal, logprobs.refusal);
                self.logprobs = Some(accumulated);
            },
            None => {},
        }
    }

    /// The choice's final form, under `index`.
    pub fn finish(self, index: u32) -> (r: CollectedChoice<L>)
        ensures
            r@ == choice_finish_spec(index, self@),
    {
        let ghost acc = self@;
        let tool_calls = if self.tool_calls.len() == 0 {
            proof {
                lemma_view_keys(self.tool_calls@);
            }
            None
        } else {
            let ghost entries = self.tool_calls@;
            let mut out: Vec<ToolCall> = Vec::new();
            let n = self.tool_calls.len();
            for e in it: self.tool_calls
                invariant
                    it.seq() == entries,
                    out@.len() == it.index(),
                    forall|j: int| 0 <= j < it.index() ==> tool_call_view(#[trigger] out@[j]) == tool_finish_spec(entries[j].1@),
            {
                let (_, t) = e;
                out.push(t.finish());
            }
            proof {
                lemma_view_keys(entries);
                assert(tool_calls_view(out@) =~= tools_finish_spec(entries_view(entries)));
            }
            Some(out)
        };
        let role = match self.role {
            Some(r) => r,
            None => Role::Assistant,
        };
        CollectedChoice {
            index,
            message: CollectedMessage {
                content: self.content,
                refusal: self.refusal,
                tool_calls,
                role,
                function_call: self.function_call.finish(),
                reasoning_content: self.reasoning_content,
            },
            finish_reason: self.finish_reason,
            logprobs: self.logprobs,
        }
    }
}

/// Choice pieces gathered by index, in arrival order.
pub open spec fn choices_fold<L>(entries: Seq<(u32, ChoiceAccView<L>)>, deltas: Seq<DeltaView<L>>) -> Seq<(u32, ChoiceAccView<L>)>
    decreases deltas.len(),
{
    if deltas.len() == 0 {
        entries
    } else {
        let prev = choices_fold(entries, deltas.drop_last());
        let d = deltas.last();
        upsert(prev, d.index, choice_push_spec(lookup(prev, d.index).unwrap_or(default_choice()), d))
    }
}

/// A whole chat completion being collected from its stream.
pub struct ChatCompletionAccumulator<L> {
    pub id: Option<String>,
    pub created: u32,
    pub model: String,
    pub service_tier: Option<String>,
    pub system_fingerprint: Option<String>,
    pub usage: Option<Usage>,
    pub choices: Vec<(u32, ChoiceAccumulator<L>)>,
}

/// The abstract content of a completion being collected.
pub struct ChatAccView<L> {
    pub id: OptText,
    pub created: u32,
    pub model: Seq<char>,
    pub service_tier: OptText,
    pub fingerprint: OptText,
    pub usage: Option<Usage>,
    pub choices: Seq<(u32, ChoiceAccView<L>)>,
}

impl<L> View for ChatCompletionAccumulator<L> {
    type V = ChatAccView<L>;

    open spec fn view(&self) -> ChatAccView<L> {
        ChatAccView {
            id: opt_view(self.id),
            created: self.created,
            model: self.model@,
            service_tier: opt_view(self.service_tier),
            fingerprint: opt_view(self.system_fingerprint),
            usage: self.usage,
            choices: entries_view(self.choices@),
        }
    }
}

/// The invariant of a collection: choices and their tool calls in index
/// order.
pub open spec fn acc_wf<L>(a: ChatCompletionAccumulator<L>) -> bool {
    &&& keys_sorted(a.choices@)
    &&& forall|i: int| 0 <= i < a.choices@.len() ==> keys_sorted(#[trigger] a.choices@[i].1.tool_calls@)
}

/// A collection with a chunk added: the first chunk sets the id and the
/// creation time, the first tier and fingerprint stay, the last usage wins.
pub open spec fn chunk_push_spec<L>(a: ChatAccView<L>, c: ChunkView<L>) -> ChatAccView<L> {
    ChatAccView {
        id: if a.id is None {
            Some(c.id)
        } else {
            a.id
        },
        created: if a.id is None {
            c.created
        } else {
            a.created
        },
        model: a.model,
        service_tier: if a.service_tier is None {
            c.service_tier
        } else {
            a.service_tier
        },
        fingerprint: if a.fingerprint is None {
            c.fingerprint
        } else {
            a.fingerprint
        },
        usage: if c.usage is Some {
            c.usage
        } else {
            a.usage
        },
        choices: choices_fold(a.choices, c.choices),
    }
}

/// A collected chat completion.
#[derive(Debug)]
pub struct CollectedChatCompletion<L> {
    pub id: String,
    pub choices: Vec<CollectedChoice<L>>,
    pub created: u32,
    pub model: String,
    pub service_tier: Option<String>,
    pub system_fingerprint: Option<String>,
    pub object: String,
    pub usage: Option<Usage>,
}

/// Why a stream could not be collected, checked in this order.
pub open spec fn finish_error_spec<L>(a: ChatAccView<L>, received_done: bool) -> Option<Seq<char>> {
    if !received_done {
        Some("Provider chat stream ended before its completion marker"@)
    } else if a.choices.len() == 0 {
        Some("Provider returned a completed chat stream without choices"@)
    } else if exists|i: int| 0 <= i < a.choices.len() && (#[trigger] a.choices[i]).1.finish_reason is None {
        Some("Provider chat stream ended before every choice had a finish reason"@)
    } else if a.usage is None {
        Some("Provider chat stream ended without token usage"@)
    } else if a.id is None {
        Some("Provider returned an empty chat stream"@)
    } else {
        None
    }
}

/// What a successful collection holds.
pub open spec fn collected_spec<L>(a: ChatAccView<L>, r: CollectedChatCompletion<L>) -> bool {
    &&& Some(r.id@) == a.id
    &&& r.created == a.created
    &&& r.model@ == a.model
    &&& opt_view(r.service_tier) == a.service_tier
    &&& opt_view(r.system_fingerprint) == a.fingerprint
    &&& r.object@ == "chat.completion"@
    &&& r.usage == a.usage
    &&& r.choices@.len() == a.choices.len()
    &&& forall|i: int| 0 <= i < a.choices.len() ==> (#[trigger] r.choices@[i])@ == choice_finish_spec(a.choices[i].0, a.choices[i].1)
}

/// Adds one choice piece to choices kept in index order.
fn push_choice_delta<L>(entries: &mut Vec<(u32, ChoiceAccumulator<L>)>, delta: ChoiceDelta<L>)
    requires
        keys_sorted(old(entries)@),
        forall|i: int| 0 <= i < old(entries)@.len() ==> keys_sorted(#[trigger] old(entries)@[i].1.tool_calls@),
    ensures
        keys_sorted(final(entries)@),
        forall|i: int| 0 <= i < final(entries)@.len() ==> keys_sorted(#[trigger] final(entries)@[i].1.tool_calls@),
        entries_view(final(entries)@) == ({
            let prev = entries_view(old(entries)@);
            upsert(prev, delta@.index, choice_push_spec(lookup(prev, delta@.index).unwrap_or(default_choice()), delta@))
        }),
{
    let ghost d = delta@;
    proof {
        lemma_view_keys(entries@);
    }
    let ghost prev = entries_view(entries@);
    match find_slot(entries, delta.index) {
        Slot::Found(pos) => {
            let (key, mut acc) = entries.remove(pos);
            proof {
                assert(acc == old(entries)@[pos as int].1);
            }
            let ghost before = acc@;
            acc.push(delta);
            entries.insert(pos, (key, acc));
            proof {
                assert(entries@ =~= old(entries)@.update(pos as int, (key, acc)));
                lemma_view_update(old(entries)@, pos as int, (key, acc));
                assert(prev[pos as int] == (key, before));
                lemma_upsert_found(prev, d.index, choice_push_spec(before, d), pos as int);
                lemma_view_keys(entries@);
                assert forall|i: int| 0 <= i < entries@.len() implies keys_sorted(#[trigger] entries@[i].1.tool_calls@) by {
                    if i != pos {
                        assert(entries@[i] == old(entries)@[i]);
                    }
                }
            }
        },
        Slot::Gap(pos) => {
            let mut acc = ChoiceAccumulator::new();
            let key = delta.index;
            acc.push(delta);
            entries.insert(pos, (key, acc));
            proof {
                lemma_view_insert(old(entries)@, pos as int, (key, acc));
                assert forall|j: int| 0 <= j < pos implies prev[j].0 < d.index by {
                    assert(prev[j].0 == old(entries)@[j].0);
                }
                assert forall|j: int| pos <= j < prev.len() implies prev[j].0 > d.index by {
                    assert(prev[j].0 == old(entries)@[j].0);
                }
                lemma_upsert_absent(prev, d.index, choice_push_spec(default_choice(), d), pos as int);
                lemma_view_keys(entries@);
                assert forall|i: int| 0 <= i < entries@.len() implies keys_sorted(#[trigger] entries@[i].1.tool_calls@) by {
                    if i < pos {
                        assert(entries@[i] == old(entries)@[i]);
                    } else if i > pos {
                        assert(entries@[i] == old(entries)@[i - 1]);
                    }
                }
            }
        },
    }
}

/// Adds choice pieces, in order.
fn push_choice_deltas<L>(entries: &mut Vec<(u32, ChoiceAccumulator<L>)>, choices: Vec<ChoiceDelta<L>>)
    requires
        keys_sorted(old(entries)@),
        forall|i: int| 0 <= i < old(entries)@.len() ==> keys_sorted(#[trigger] old(entries)@[i].1.tool_calls@),
    ensures
        keys_sorted(final(entries)@),
        forall|i: int| 0 <= i < final(entries)@.len() ==> keys_sorted(#[trigger] final(entries)@[i].1.tool_calls@),
        entries_view(final(entries)@) == choices_fold(entries_view(old(entries)@), deltas_view(choices@)),
{
    let ghost start = entries_view(entries@);
    let ghost all = deltas_view(choices@);
    for choice in it: choices
        invariant
            keys_sorted(entries@),
            forall|i: int| 0 <= i < entries@.len() ==> keys_sorted(#[trigger] entries@[i].1.tool_calls@),
            all == deltas_view(it.seq()),
            entries_view(entries@) == choices_fold(start, all.take(it.index() as int)),
    {
        let ghost i = it.index();
        proof {
            assert(all.take(i + 1).drop_last() == all.take(i as int));
            assert(all.take(i + 1).last() == choice@);
        }
        push_choice_delta(entries, choice);
    }
    proof {
        assert(all.take(all.len() as int) == all);
    }
}

impl<L> ChatCompletionAccumulator<L> {
    /// An empty collection for a model.
    pub fn new(model: String) -> (r: Self)
        ensures
            acc_wf(r),
            r@ == (ChatAccView::<L> {
                id: None,
                created: 0,
                model: model@,
                service_tier: None,
                fingerprint: None,
                usage: None,
                choices: Seq::empty(),
            }),
    {
        let r = ChatCompletionAccumulator {
            id: None,
            created: 0,
            model,
            service_tier: None,
            system_fingerprint: None,
            usage: None,
            choices: Vec::new(),
        };
        proof {
            assert(entries_view(r.choices@) =~= Seq::<(u32, ChoiceAccView<L>)>::empty());
        }
        r
    }

    /// Adds one chunk of the stream.
    pub fn push(&mut self, chunk: StreamChunk<L>)
        requires
            acc_wf(*old(self)),
        ensures
            acc_wf(*final(self)),
            final(self)@ == chunk_push_spec(old(self)@, chunk@),
    {
        if self.id.is_none() {
            self.created = chunk.created;
            self.id = Some(chunk.id);
        }
        if self.service_tier.is_none() {
            self.service_tier = chunk.service_tier;
        }
        if self.system_fingerprint.is_none() {
            self.system_fingerprint = chunk.system_fingerprint;
        }
        if chunk.usage.is_some() {
            self.usage = chunk.usage;
        }
        push_choice_deltas(&mut self.choices, chunk.choices);
    }

    /// The collected completion, once the stream ended with its marker and
    /// every choice finished with a reason and usage; otherwise the reason
    /// it cannot be collected, as an internal error.
    pub fn finish(self, received_done: bool) -> (r: Result<CollectedChatCompletion<L>, ShaideError>)
        requires
            acc_wf(self),
        ensures
            match r {
                Ok(c) => finish_error_spec(self@, received_done) is None && collected_spec(self@, c)
                    && forall|i: int, j: int| 0 <= i < j < c.choices@.len() ==> c.choices@[i].index < c.choices@[j].index,
                Err(e) => e is InternalServerError && finish_error_spec(self@, received_done) == Some(e->InternalServerError_0@),
            },
    {
        proof {
            lemma_view_keys(self.choices@);
        }
        if !received_done {
            return Err(ShaideError::InternalServerError(owned("Provider chat stream ended before its completion marker")));
        }
        if self.choices.len() == 0 {
            return Err(ShaideError::InternalServerError(owned("Provider returned a completed chat stream without choices")));
        }
        let mut k: usize = 0;
        while k < self.choices.len()
            invariant
                received_done,
                self.choices@.len() > 0,
                k <= self.choices@.len(),
                entries_view(self.choices@).len() == self.choices@.len(),
                forall|i: int| 0 <= i < self.choices@.len() ==> #[trigger] entries_view(self.choices@)[i] == (self.choices@[i].0, self.choices@[i].1@),
                forall|j: int| 0 <= j < k ==> (#[trigger] self.choices@[j]).1.finish_reason is Some,
            decreases self.choices.len() - k,
        {
            if self.choices[k].1.finish_reason.is_none() {
                proof {
                    let a = self@;
                    assert(a.choices[k as int].1.finish_reason is None);
                    assert(exists|i: int| 0 <= i < a.choices.len() && (#[trigger] a.choices[i]).1.finish_reason is None);
                    assert(received_done);
                    assert(a.choices.len() != 0);
                    assert(finish_error_spec(a, received_done) == Some("Provider chat stream ended before every choice had a finish reason"@));
                }
                return Err(ShaideError::InternalServerError(owned("Provider chat stream ended before every choice had a finish reason")));
            }
            k = k + 1;
        }
        proof {
            assert forall|i: int| 0 <= i < entries_view(self.choices@).len() implies (#[trigger] entries_view(self.choices@)[i]).1.finish_reason is Some by {
                assert(self.choices@[i].1.finish_reason is Some);
            }
        }
        let usage = match self.usage {
            Some(u) => u,
            None => return Err(ShaideError::InternalServerError(owned("Provider chat stream ended without token usage"))),
        };
        let id = match self.id {
            Some(id) => id,
            None => return Err(ShaideError::InternalServerError(owned("Provider returned an empty chat stream"))),
        };
        let ghost entries = self.choices@;
        let mut choices: Vec<CollectedChoice<L>> = Vec::new();
        for e in it: self.choices
            invariant
                it.seq() == entries,
                choices@.len() == it.index(),
                forall|j: int| 0 <= j < it.index() ==> (#[trigger] choices@[j])@ == choice_finish_spec(entries[j].0, entries[j].1@),
        {
            let (index, choice) = e;
            choices.push(choice.finish(index));
        }
        proof {
            assert forall|i: int, j: int| 0 <= i < j < choices@.len() implies choices@[i].index < choices@[j].index by {
                assert(choices@[i]@.index == entries[i].0);
                assert(choices@[j]@.index == entries[j].0);
            }
            assert forall|i: int| 0 <= i < entries_view(entries).len() implies (#[trigger] choices@[i])@ == choice_finish_spec(entries_view(entries)[i].0, entries_view(entries)[i].1) by {
                assert(entries_view(entries)[i] == (entries[i].0, entries[i].1@));
            }
        }
        Ok(CollectedChatCompletion {
            id,
            choices,
            created: self.created,
            model: self.model,
            service_tier: self.service_tier,
            system_fingerprint: self.system_fingerprint,
            object: owned("chat.completion"),
            usage: Some(usage),
        })
    }
}

/// The content a choice has after a list of pieces, starting from `prev`:
/// the content fragments of the pieces for that choice, joined in order.
pub open spec fn deltas_content<L>(prev: OptText, ds: Seq<DeltaView<L>>, index: u32) -> OptText
    decreases ds.len(),
{
    if ds.len() == 0 {
        prev
    } else {
        let p = deltas_content(prev, ds.drop_last(), index);
        if ds.last().index == index {
            append_spec(p, ds.last().content)
        } else {
            p
        }
    }
}

/// The content fragments of one choice over a whole stream, joined in the
/// order they arrived; `None` when none arrived.
pub open spec fn stream_content<L>(chunks: Seq<ChunkView<L>>, index: u32) -> OptText
    decreases chunks.len(),
{
    if chunks.len() == 0 {
        None
    } else {
        deltas_content(stream_content(chunks.drop_last(), index), chunks.last().choices, index)
    }
}

/// A collection after a whole stream of chunks.
pub open spec fn collect_spec<L>(start: ChatAccView<L>, chunks: Seq<ChunkView<L>>) -> ChatAccView<L>
    decreases chunks.len(),
{
    if chunks.len() == 0 {
        start
    } else {
        chunk_push_spec(collect_spec(start, chunks.drop_last()), chunks.last())
    }
}

/// The collection before any chunk.
pub open spec fn empty_collection<L>(model: Seq<char>) -> ChatAccView<L> {
    ChatAccView { id: None, created: 0, model: model, service_tier: None, fingerprint: None, usage: None, choices: Seq::empty() }
}

/// The content gathered for a choice, `None` when the choice is unknown.
pub open spec fn choice_content<L>(entries: Seq<(u32, ChoiceAccView<L>)>, index: u32) -> OptText {
    match lookup(entries, index) {
        Some(a) => a.content,
        None => None,
    }
}

proof fn lemma_choices_fold_content<L>(e: Seq<(u32, ChoiceAccView<L>)>, ds: Seq<DeltaView<L>>, index: u32)
    requires
        keys_sorted(e),
    ensures
        keys_sorted(choices_fold(e, ds)),
        choice_content(choices_fold(e, ds), index) == deltas_content(choice_content(e, index), ds, index),
    decreases ds.len(),
{
    if ds.len() > 0 {
        let prev = choices_fold(e, ds.drop_last());
        lemma_choices_fold_content(e, ds.drop_last(), index);
        let d = ds.last();
        let v = choice_push_spec(lookup(prev, d.index).unwrap_or(default_choice()), d);
        crate::entries::lemma_lookup_upsert_same(prev, d.index, v);
        if d.index != index {
            crate::entries::lemma_lookup_upsert_other(prev, d.index, v, index);
        }
    }
}

/// Collecting a stream joins the content fragments of each choice in the
/// order they arrived: whatever the chunks, the content collected for a
/// choice index is the concatenation of the content fragments of the pieces
/// with that index, chunk by chunk and piece by piece.
pub proof fn law_collected_content_joins_fragments<L>(model: Seq<char>, chunks: Seq<ChunkView<L>>, index: u32)
    ensures
        keys_sorted(collect_spec(empty_collection::<L>(model), chunks).choices),
        choice_content(collect_spec(empty_collection::<L>(model), chunks).choices, index) == stream_content(chunks, index),
    decreases chunks.len(),
{
    if chunks.len() > 0 {
        law_collected_content_joins_fragments(model, chunks.drop_last(), index);
        let prev = collect_spec(empty_collection::<L>(model), chunks.drop_last());
        lemma_choices_fold_content(prev.choices, chunks.last().choices, index);
    } else {
        assert(!crate::entries::has_key(Seq::<(u32, ChoiceAccView<L>)>::empty(), index));
    }
}

/// The reasoning gathered for a choice, `None` when the choice is unknown.
pub open spec fn choice_reasoning<L>(entries: Seq<(u32, ChoiceAccView<L>)>, index: u32) -> OptText {
    match lookup(entries, index) {
        Some(a) => a.reasoning,
        None => None,
    }
}

/// The reasoning fragments carried by the pieces for choice `index`, in
/// order.
pub open spec fn piece_reasoning_fragments<L>(ds: Seq<DeltaView<L>>, index: u32) -> Seq<Seq<char>>
    decreases ds.len(),
{
    if ds.len() == 0 {
        Seq::empty()
    } else {
        let prev = piece_reasoning_fragments(ds.drop_last(), index);
        if ds.last().index == index && ds.last().reasoning is Some {
            prev.push(ds.last().reasoning->0)
        } else {
            prev
        }
    }
}

/// The reasoning fragments of choice `index` over a whole stream, in the
/// order they arrived.
pub open spec fn stream_reasoning_fragments<L>(chunks: Seq<ChunkView<L>>, index: u32) -> Seq<Seq<char>>
    decreases chunks.len(),
{
    if chunks.len() == 0 {
        Seq::empty()
    } else {
        stream_reasoning_fragments(chunks.drop_last(), index) + piece_reasoning_fragments(chunks.last().choices, index)
    }
}

/// Text fragments joined: nothing when there are none, else their
/// concatenation.
pub open spec fn joined_text(fragments: Seq<Seq<char>>) -> OptText {
    if fragments.len() == 0 {
        None
    } else {
        Some(fragments.flatten())
    }
}

proof fn lemma_joined_push(fragments: Seq<Seq<char>>, f: Seq<char>)
    ensures
        joined_text(fragments.push(f)) == Some(
            match joined_text(fragments) {
                Some(t) => t,
                None => Seq::<char>::empty(),
            } + f,
        ),
{
    fragments.lemma_flatten_and_flatten_alt_are_equivalent();
    fragments.push(f).lemma_flatten_and_flatten_alt_are_equivalent();
    assert(fragments.push(f).drop_last() == fragments);
    if fragments.len() == 0 {
        assert(fragments.flatten_alt() == Seq::<char>::empty());
    }
}

proof fn lemma_choices_fold_reasoning<L>(
    e: Seq<(u32, ChoiceAccView<L>)>,
    ds: Seq<DeltaView<L>>,
    index: u32,
    before: Seq<Seq<char>>,
)
    requires
        keys_sorted(e),
        choice_reasoning(e, index) == joined_text(before),
    ensures
        choice_reasoning(choices_fold(e, ds), index) == joined_text(before + piece_reasoning_fragments(ds, index)),
    decreases ds.len(),
{
    if ds.len() == 0 {
        assert(before + piece_reasoning_fragments(ds, index) == before);
    } else {
        let prev = choices_fold(e, ds.drop_last());
        lemma_choices_fold_reasoning(e, ds.drop_last(), index, before);
        lemma_choices_fold_content(e, ds.drop_last(), index);
        let d = ds.last();
        let v = choice_push_spec(lookup(prev, d.index).unwrap_or(default_choice()), d);
        crate::entries::lemma_lookup_upsert_same(prev, d.index, v);
        let mid = before + piece_reasoning_fragments(ds.drop_last(), index);
        if d.index != index {
            crate::entries::lemma_lookup_upsert_other(prev, d.index, v, index);
        } else if d.reasoning is Some {
            lemma_joined_push(mid, d.reasoning->0);
            assert(before + piece_reasoning_fragments(ds, index) == mid.push(d.reasoning->0));
        }
    }
}

/// Collecting a stream joins the reasoning fragments of each choice in the
/// order they arrived: whatever the chunks, the reasoning collected for a
/// choice index is absent when no fragment for it arrived, and otherwise
/// the concatenation of all its fragments, chunk by chunk and piece by
/// piece; a later fragment never replaces an earlier one.
pub proof fn law_collected_reasoning_joins_fragments<L>(model: Seq<char>, chunks: Seq<ChunkView<L>>, index: u32)
    ensures
        choice_reasoning(collect_spec(empty_collection::<L>(model), chunks).choices, index) == joined_text(
            stream_reasoning_fragments(chunks, index),
        ),
    decreases chunks.len(),
{
    if chunks.len() > 0 {
        law_collected_reasoning_joins_fragments(model, chunks.drop_last(), index);
        law_collected_content_joins_fragments(model, chunks.drop_last(), index);
        let prev = collect_spec(empty_collection::<L>(model), chunks.drop_last());
        lemma_choices_fold_reasoning(
            prev.choices,
            chunks.last().choices,
            index,
            stream_reasoning_fragments(chunks.drop_last(), index),
        );
    } else {
        assert(!crate::entries::has_key(Seq::<(u32, ChoiceAccView<L>)>::empty(), index));
    }
}

/// Collects a whole stream: the chunks in the order they arrived, and
/// whether the stream ended with its completion marker.
pub fn collect_chat_completion<L>(chunks: Vec<StreamChunk<L>>, received_done: bool, model: String) -> (r: Result<CollectedChatCompletion<L>, ShaideError>)
    ensures
        ({
            let a = collect_spec(empty_collection::<L>(model@), chunks@.map_values(|c: StreamChunk<L>| c@));
            match r {
                Ok(c) => finish_error_spec(a, received_done) is None && collected_spec(a, c),
                Err(e) => e is InternalServerError && finish_error_spec(a, received_done) == Some(e->InternalServerError_0@),
            }
        }),
{
    let ghost all = chunks@.map_values(|c: StreamChunk<L>| c@);
    let mut acc = ChatCompletionAccumulator::new(model);
    for chunk in it: chunks
        invariant
            acc_wf(acc),
            all == it.seq().map_values(|c: StreamChunk<L>| c@),
            acc@ == collect_spec(empty_collection::<L>(model@), all.take(it.index() as int)),
    {
        let ghost i = it.index();
        proof {
            assert(all.take(i + 1).drop_last() == all.take(i as int));
            assert(all.take(i + 1).last() == chunk@);
        }
        acc.push(chunk);
    }
    proof {
        assert(all.take(all.len() as int) == all);
    }
    acc.finish(received_done)
}

} // verus!
