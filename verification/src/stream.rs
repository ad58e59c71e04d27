//! A streamed chat with tool calls, one decision at a time.
//!
//! The request is sent once, without the history.  Each chunk of the answer
//! that carries text is passed on as a content event; each tool call in a
//! chunk is announced, executed when the tool is registered, and concluded
//! with its result, which is also saved in the history, or with an error.
//! The stream ends with `Done` when the service has no more chunks, or with
//! an error when the stream cannot start or a chunk cannot be read.
//!
//! The caller opens the stream, reads the chunks and calls the tools: it
//! emits the events of each step in order, performs the step's action, and
//! hands what came back to the coordinator.
use vstd::prelude::*;
use vstd::string::*;

use crate::coordinator::{
    answers_to, lemma_tool_index_meaning, no_tool_named, request_for, tool_index, Coordinator,
    CoordinatorView,
};
use crate::history::ChatHistory;
use crate::types::{
    tool_message_view, ChatMessage, ChatMessageRequest, ChatMessageResponse, ResponseView,
    ToolCall, ToolCallView, ToolInfoView,
};

verus! {

/// An event of a streamed chat.
#[derive(Debug)]
pub enum CoordinatorStreamEvent {
    /// Text of the model's answer.
    ContentChunk(String),
    /// A tool call begins: the tool's name and its arguments as JSON text.
    ToolCallStarted { name: String, args: String },
    /// A tool call ended with this result.
    ToolCallCompleted { name: String, result: String },
    /// Text of the model's answer after the tools were called.
    FinalContentChunk(String),
    /// The stream ended normally.
    Done,
    /// Something failed.
    Error(String),
}

/// Abstract value of a stream event.
pub enum EventView {
    ContentChunk(Seq<char>),
    ToolCallStarted { name: Seq<char>, args: Seq<char> },
    ToolCallCompleted { name: Seq<char>, result: Seq<char> },
    FinalContentChunk(Seq<char>),
    Done,
    Error(Seq<char>),
}

impl DeepView for CoordinatorStreamEvent {
    type V = EventView;

    open spec fn deep_view(&self) -> EventView {
        match self {
            CoordinatorStreamEvent::ContentChunk(s) => EventView::ContentChunk(s@),
            CoordinatorStreamEvent::ToolCallStarted { name, args } => EventView::ToolCallStarted {
                name: name@,
                args: args@,
            },
            CoordinatorStreamEvent::ToolCallCompleted { name, result } =>
                EventView::ToolCallCompleted { name: name@, result: result@ },
            CoordinatorStreamEvent::FinalContentChunk(s) => EventView::FinalContentChunk(s@),
            CoordinatorStreamEvent::Done => EventView::Done,
            CoordinatorStreamEvent::Error(s) => EventView::Error(s@),
        }
    }
}

/// A tool call of a streamed chunk to perform: the registered tool to call
/// (by its index in the order of registration), the tool calls of the chunk,
/// and the position of this one among them.
pub struct PendingStreamTool {
    pub(crate) tool: usize,
    pub(crate) calls: Vec<ToolCall>,
    pub(crate) index: usize,
}

/// Abstract value of a pending tool call of a stream.
pub struct PendingStreamView {
    pub tool: int,
    pub calls: Seq<ToolCallView>,
    pub index: int,
}

impl PendingStreamTool {
    #[verifier::type_invariant]
    spec fn call_exists(self) -> bool {
        self.index < self.calls.len()
    }

    /// The index of the tool to call, in the order of registration.
    pub fn tool(&self) -> (r: usize)
        ensures
            r == self.deep_view().tool,
    {
        self.tool
    }

    /// The name of the tool that the model asked for.
    pub fn name(&self) -> (r: &String)
        ensures
            r@ == self.deep_view().calls[self.deep_view().index].name,
    {
        proof {
            use_type_invariant(self);
        }
        let ghost calls = self.calls.deep_view();
        assert(calls[self.index as int] == self.calls[self.index as int].deep_view());
        &self.calls[self.index].function.name
    }

    /// The arguments of the call, as JSON text.
    pub fn arguments(&self) -> (r: &String)
        ensures
            r@ == self.deep_view().calls[self.deep_view().index].arguments,
    {
        proof {
            use_type_invariant(self);
        }
        let ghost calls = self.calls.deep_view();
        assert(calls[self.index as int] == self.calls[self.index as int].deep_view());
        &self.calls[self.index].function.arguments
    }
}

impl DeepView for PendingStreamTool {
    type V = PendingStreamView;

    closed spec fn deep_view(&self) -> PendingStreamView {
        PendingStreamView {
            tool: self.tool as int,
            calls: self.calls.deep_view(),
            index: self.index as int,
        }
    }
}

/// What the caller does after emitting a step's events.
pub enum StreamAction {
    /// Read the next chunk, and hand it to `stream_on_chunk`.
    NextChunk,
    /// Call this tool, and hand the outcome to `stream_on_tool_result`.
    CallTool(PendingStreamTool),
    /// The stream is over.
    Stop,
}

/// Abstract value of a stream action.
pub enum StreamActionView {
    NextChunk,
    CallTool(PendingStreamView),
    Stop,
}

impl DeepView for StreamAction {
    type V = StreamActionView;

    open spec fn deep_view(&self) -> StreamActionView {
        match self {
            StreamAction::NextChunk => StreamActionView::NextChunk,
            StreamAction::CallTool(call) => StreamActionView::CallTool(call.deep_view()),
            StreamAction::Stop => StreamActionView::Stop,
        }
    }
}

/// One step of a streamed chat: the events to emit, in order, then the
/// action to perform.
pub struct StreamStep {
    pub events: Vec<CoordinatorStreamEvent>,
    pub action: StreamAction,
}

/// Abstract value of a step.
pub struct StreamStepView {
    pub events: Seq<EventView>,
    pub action: StreamActionView,
}

impl DeepView for StreamStep {
    type V = StreamStepView;

    open spec fn deep_view(&self) -> StreamStepView {
        StreamStepView { events: self.events.deep_view(), action: self.action.deep_view() }
    }
}

/// The error text for a call of a tool that is not registered.
pub open spec fn unknown_tool_text(name: Seq<char>) -> Seq<char> {
    "Unknown tool: "@ + name
}

/// The error text for a failed tool.
pub open spec fn tool_failed_text(error: Seq<char>) -> Seq<char> {
    "Tool execution failed: "@ + error
}

/// The error text for a stream that could not start.
pub open spec fn open_failed_text(error: Seq<char>) -> Seq<char> {
    "Failed to start stream: "@ + error
}

/// The error text for a chunk that could not be read.
pub open spec fn chunk_failed_text() -> Seq<char> {
    "Stream error occurred"@
}

/// The events of the tool calls of a chunk from position `k` on, up to the
/// first call of a registered tool: each call is announced, and a call of a
/// tool that is not registered is concluded with an error at once.
pub open spec fn dispatch_events(tools: Seq<ToolInfoView>, calls: Seq<ToolCallView>, k: int) -> Seq<EventView>
    decreases calls.len() - k,
{
    if k < 0 || k >= calls.len() {
        Seq::empty()
    } else {
        let started = EventView::ToolCallStarted { name: calls[k].name, args: calls[k].arguments };
        match tool_index(tools, calls[k].name) {
            Some(_) => seq![started],
            None => seq![started, EventView::Error(unknown_tool_text(calls[k].name))]
                + dispatch_events(tools, calls, k + 1),
        }
    }
}

/// What follows the tool calls of a chunk from position `k` on: the first
/// call of a registered tool, or the next chunk when there is none.
pub open spec fn dispatch_action(tools: Seq<ToolInfoView>, calls: Seq<ToolCallView>, k: int) -> StreamActionView
    decreases calls.len() - k,
{
    if k < 0 || k >= calls.len() {
        StreamActionView::NextChunk
    } else {
        match tool_index(tools, calls[k].name) {
            Some(i) => StreamActionView::CallTool(PendingStreamView { tool: i, calls, index: k }),
            None => dispatch_action(tools, calls, k + 1),
        }
    }
}

/// The step that follows the outcome of opening the stream.
pub open spec fn open_step(outcome: Result<(), Seq<char>>) -> StreamStepView {
    match outcome {
        Ok(_) => StreamStepView { events: Seq::empty(), action: StreamActionView::NextChunk },
        Err(e) => StreamStepView {
            events: seq![EventView::Error(open_failed_text(e))],
            action: StreamActionView::Stop,
        },
    }
}

/// The step that follows reading a chunk: the end of the stream, a chunk
/// that could not be read, or a chunk whose text, if any, is passed on and
/// whose tool calls are dispatched.
pub open spec fn chunk_step(tools: Seq<ToolInfoView>, chunk: Option<Result<ResponseView, ()>>) -> StreamStepView {
    match chunk {
        None => StreamStepView { events: seq![EventView::Done], action: StreamActionView::Stop },
        Some(Err(_)) => StreamStepView {
            events: seq![EventView::Error(chunk_failed_text())],
            action: StreamActionView::Stop,
        },
        Some(Ok(response)) => {
            let content = response.message.content;
            let calls = response.message.tool_calls;
            let text = if content.len() > 0 {
                seq![EventView::ContentChunk(content)]
            } else {
                Seq::empty()
            };
            StreamStepView {
                events: text + dispatch_events(tools, calls, 0),
                action: dispatch_action(tools, calls, 0),
            }
        },
    }
}

/// The step that follows the outcome of a tool call: the call is concluded,
/// and the remaining calls of the chunk are dispatched.
pub open spec fn tool_result_step(
    tools: Seq<ToolInfoView>,
    call: PendingStreamView,
    outcome: Result<Seq<char>, Seq<char>>,
) -> StreamStepView {
    let conclusion = match outcome {
        Ok(result) => EventView::ToolCallCompleted { name: call.calls[call.index].name, result },
        Err(e) => EventView::Error(tool_failed_text(e)),
    };
    StreamStepView {
        events: seq![conclusion] + dispatch_events(tools, call.calls, call.index + 1),
        action: dispatch_action(tools, call.calls, call.index + 1),
    }
}

/// The outcome of a chunk read, by abstract value.
pub open spec fn chunk_view(chunk: Option<Result<ChatMessageResponse, ()>>) -> Option<Result<ResponseView, ()>> {
    match chunk {
        None => None,
        Some(Err(_)) => Some(Err(())),
        Some(Ok(response)) => Some(Ok(response.deep_view())),
    }
}

/// Whether `event` ends a stream: `Done` or an error.
pub open spec fn is_terminal(event: EventView) -> bool {
    event is Done || event is Error
}

/// The events of dispatching the tool calls of a chunk from position `k`
/// on: a pair of an announcement and an error for each call of a tool that
/// is not registered, then, when the action is a tool call, the announcement
/// of that call; the action is the call of the first registered tool from
/// `k` on, or the next chunk when there is none.
pub proof fn lemma_dispatch_shape(tools: Seq<ToolInfoView>, calls: Seq<ToolCallView>, k: int)
    requires
        0 <= k <= calls.len(),
    ensures
        ({
            let events = dispatch_events(tools, calls, k);
            let action = dispatch_action(tools, calls, k);
            let unknown_before = |m: int| forall|j: int| k <= j < m ==> tool_index(tools, calls[j].name) is None;
            &&& forall|i: int| 0 <= i < events.len() / 2 ==> {
                &&& #[trigger] events[2 * i] == EventView::ToolCallStarted {
                    name: calls[k + i].name,
                    args: calls[k + i].arguments,
                }
                &&& events[2 * i + 1] == EventView::Error(unknown_tool_text(calls[k + i].name))
            }
            &&& match action {
                StreamActionView::CallTool(p) => {
                    &&& p.calls == calls
                    &&& k <= p.index < calls.len()
                    &&& events.len() == 2 * (p.index - k) + 1
                    &&& events.last() == EventView::ToolCallStarted {
                        name: calls[p.index].name,
                        args: calls[p.index].arguments,
                    }
                    &&& unknown_before(p.index)
                    &&& tool_index(tools, calls[p.index].name) == Some(p.tool)
                },
                StreamActionView::NextChunk => {
                    &&& events.len() == 2 * (calls.len() - k)
                    &&& unknown_before(calls.len() as int)
                },
                _ => false,
            }
        }),
    decreases calls.len() - k,
{
    if k < calls.len() {
        if tool_index(tools, calls[k].name) is None {
            lemma_dispatch_shape(tools, calls, k + 1);
            let rest = dispatch_events(tools, calls, k + 1);
            let events = dispatch_events(tools, calls, k);
            assert forall|i: int| 0 <= i < events.len() / 2 implies {
                &&& #[trigger] events[2 * i] == EventView::ToolCallStarted {
                    name: calls[k + i].name,
                    args: calls[k + i].arguments,
                }
                &&& events[2 * i + 1] == EventView::Error(unknown_tool_text(calls[k + i].name))
            } by {
                if i > 0 {
                    assert(events[2 * i] == rest[2 * (i - 1)]);
                    assert(events[2 * i + 1] == rest[2 * (i - 1) + 1]);
                }
            }
        }
    }
}

/// Whether a step that stops ends with `Done` or an error, and `Done`, if
/// present, is the last event of a step that stops.
pub open spec fn ends_properly(step: StreamStepView) -> bool {
    &&& step.action is Stop ==> step.events.len() > 0 && is_terminal(step.events.last())
    &&& forall|i: int|
        0 <= i < step.events.len() && #[trigger] step.events[i] is Done ==> {
            &&& i == step.events.len() - 1
            &&& step.action is Stop
        }
}

/// Whether a step passes on only non-empty text and no final content chunk.
pub open spec fn content_nonempty(step: StreamStepView) -> bool {
    forall|i: int|
        0 <= i < step.events.len() ==> {
            &&& !(#[trigger] step.events[i] is FinalContentChunk)
            &&& step.events[i] is ContentChunk ==> step.events[i]->ContentChunk_0.len() > 0
        }
}

/// A streamed chat always ends with `Done` or an error: a step whose action
/// is to stop has events, the last of which is `Done` or an error; and
/// `Done` is only ever the last event of the last step, which comes when the
/// service has no more chunks.
pub proof fn lemma_stream_ends_with_done_or_error(
    tools: Seq<ToolInfoView>,
    open: Result<(), Seq<char>>,
    chunk: Option<Result<ResponseView, ()>>,
    call: PendingStreamView,
    outcome: Result<Seq<char>, Seq<char>>,
)
    requires
        0 <= call.index < call.calls.len(),
    ensures
        ends_properly(open_step(open)),
        ends_properly(chunk_step(tools, chunk)),
        ends_properly(tool_result_step(tools, call, outcome)),
        (chunk_step(tools, chunk).events.contains(EventView::Done)) <==> chunk is None,
{
    if let Some(Ok(response)) = chunk {
        let calls = response.message.tool_calls;
        lemma_dispatch_shape(tools, calls, 0);
        lemma_no_done_in_dispatch(tools, calls, 0);
        let step = chunk_step(tools, chunk);
        if step.events.contains(EventView::Done) {
            let i = choose|i: int| 0 <= i < step.events.len() && step.events[i] == EventView::Done;
            if response.message.content.len() > 0 {
                assert(step.events[i] == dispatch_events(tools, calls, 0)[i - 1]);
            } else {
                assert(step.events[i] == dispatch_events(tools, calls, 0)[i]);
            }
        }
    }
    lemma_dispatch_shape(tools, call.calls, call.index + 1);
    lemma_no_done_in_dispatch(tools, call.calls, call.index + 1);
    if chunk is None {
        assert(chunk_step(tools, chunk).events[0] == EventView::Done);
    }
}

/// A streamed chat passes on only non-empty text, as content chunks, and
/// never emits a final content chunk; a chunk without tool calls gives at
/// most its text and asks for the next chunk, with no tool event.
pub proof fn lemma_stream_content(
    tools: Seq<ToolInfoView>,
    open: Result<(), Seq<char>>,
    chunk: Option<Result<ResponseView, ()>>,
    call: PendingStreamView,
    outcome: Result<Seq<char>, Seq<char>>,
)
    requires
        0 <= call.index < call.calls.len(),
    ensures
        content_nonempty(open_step(open)),
        content_nonempty(chunk_step(tools, chunk)),
        content_nonempty(tool_result_step(tools, call, outcome)),
        chunk matches Some(Ok(response)) ==> (response.message.tool_calls.len() == 0 ==> {
            let step = chunk_step(tools, chunk);
            &&& step.action is NextChunk
            &&& step.events.len() <= 1
            &&& forall|i: int| 0 <= i < step.events.len() ==> #[trigger] step.events[i]
                == EventView::ContentChunk(response.message.content)
        }),
{
    if let Some(Ok(response)) = chunk {
        let calls = response.message.tool_calls;
        lemma_dispatch_shape(tools, calls, 0);
        let d = dispatch_events(tools, calls, 0);
        let step = chunk_step(tools, chunk);
        assert forall|i: int| 0 <= i < d.len() implies (#[trigger] d[i] is ToolCallStarted || d[i] is Error) by {
            if i % 2 == 0 {
                assert(d[2 * (i / 2)] is ToolCallStarted);
            } else {
                assert(d[2 * (i / 2) + 1] is Error);
            }
        }
        assert forall|i: int| 0 <= i < step.events.len() implies {
            &&& !(#[trigger] step.events[i] is FinalContentChunk)
            &&& step.events[i] is ContentChunk ==> step.events[i]->ContentChunk_0.len() > 0
        } by {
            if response.message.content.len() > 0 && i > 0 {
                assert(step.events[i] == d[i - 1]);
            } else if response.message.content.len() == 0 {
                assert(step.events[i] == d[i]);
            }
        }
        if calls.len() == 0 {
            assert(d =~= Seq::<EventView>::empty());
        }
    }
    lemma_dispatch_shape(tools, call.calls, call.index + 1);
    let d = dispatch_events(tools, call.calls, call.index + 1);
    let step = tool_result_step(tools, call, outcome);
    assert forall|i: int| 0 <= i < step.events.len() implies !(#[trigger] step.events[i] is FinalContentChunk) && !(step.events[i] is ContentChunk) by {
        if i > 0 {
            assert(step.events[i] == d[i - 1]);
            let j = i - 1;
            if j % 2 == 0 {
                assert(d[2 * (j / 2)] is ToolCallStarted);
            } else {
                assert(d[2 * (j / 2) + 1] is Error);
            }
        }
    }
}

/// Every tool call that a stream announces is concluded: the step that
/// takes a tool's outcome opens with the call's result, under the name of
/// the tool that was asked for, or with the error of the failed tool.
pub proof fn lemma_tool_call_concluded(
    tools: Seq<ToolInfoView>,
    call: PendingStreamView,
    outcome: Result<Seq<char>, Seq<char>>,
)
    requires
        0 <= call.index < call.calls.len(),
    ensures
        tool_result_step(tools, call, outcome).events.len() > 0,
        tool_result_step(tools, call, outcome).events[0] == match outcome {
            Ok(result) => EventView::ToolCallCompleted { name: call.calls[call.index].name, result },
            Err(e) => EventView::Error(tool_failed_text(e)),
        },
{
}

/// Whether `events` and `action` deal with the tool calls `calls` from
/// position `k` on as a stream must: each call of a tool that is not
/// registered is announced and concluded with an "Unknown tool" error, in
/// order; the first call of a registered tool is announced last and is the
/// one to execute, by the tool that answers to its name; and when no call
/// from `k` on is of a registered tool, the next chunk is read.
pub open spec fn calls_dealt_with(
    tools: Seq<ToolInfoView>,
    calls: Seq<ToolCallView>,
    k: int,
    events: Seq<EventView>,
    action: StreamActionView,
) -> bool {
    &&& forall|i: int| 0 <= i < events.len() / 2 ==> {
        &&& #[trigger] events[2 * i] == EventView::ToolCallStarted {
            name: calls[k + i].name,
            args: calls[k + i].arguments,
        }
        &&& events[2 * i + 1] == EventView::Error("Unknown tool: "@ + calls[k + i].name)
    }
    &&& match action {
        StreamActionView::CallTool(p) => {
            &&& p.calls == calls
            &&& k <= p.index < calls.len()
            &&& answers_to(tools, calls[p.index].name, p.tool)
            &&& forall|j: int| k <= j < p.index ==> no_tool_named(tools, #[trigger] calls[j].name)
            &&& events.len() == 2 * (p.index - k) + 1
            &&& events.last() == EventView::ToolCallStarted {
                name: calls[p.index].name,
                args: calls[p.index].arguments,
            }
        },
        StreamActionView::NextChunk => {
            &&& forall|j: int| k <= j < calls.len() ==> no_tool_named(tools, #[trigger] calls[j].name)
            &&& events.len() == 2 * (calls.len() - k)
        },
        _ => false,
    }
}

/// Dispatching the tool calls of a chunk from position `k` on deals with
/// them as a stream must.
pub proof fn lemma_dispatch_deals_with_calls(tools: Seq<ToolInfoView>, calls: Seq<ToolCallView>, k: int)
    requires
        0 <= k <= calls.len(),
    ensures
        calls_dealt_with(tools, calls, k, dispatch_events(tools, calls, k), dispatch_action(tools, calls, k)),
{
    lemma_dispatch_shape(tools, calls, k);
    let action = dispatch_action(tools, calls, k);
    assert forall|j: int| k <= j < calls.len() && tool_index(tools, calls[j].name) is None implies no_tool_named(
        tools,
        #[trigger] calls[j].name,
    ) by {
        lemma_tool_index_meaning(tools, calls[j].name);
    }
    if let StreamActionView::CallTool(p) = action {
        lemma_tool_index_meaning(tools, calls[p.index].name);
    }
}

/// A chunk's text, when it has any, is passed on first, unchanged, as a
/// content event, and a chunk without text gives no content event; then
/// the chunk's tool calls are dealt with from the first on.  A chunk with
/// neither tool calls nor text gives no event, and one with text and no
/// tool call gives exactly that text.
pub proof fn lemma_chunk_passes_text_then_calls(tools: Seq<ToolInfoView>, response: ResponseView)
    ensures
        ({
            let content = response.message.content;
            let calls = response.message.tool_calls;
            let step = chunk_step(tools, Some(Ok(response)));
            let skip: int = if content.len() > 0 { 1 } else { 0 };
            &&& content.len() > 0 ==> step.events.len() > 0 && step.events[0] == EventView::ContentChunk(content)
            &&& content.len() == 0 ==> forall|i: int| 0 <= i < step.events.len() ==> !(#[trigger] step.events[i] is ContentChunk)
            &&& step.events.len() >= skip
            &&& calls_dealt_with(tools, calls, 0, step.events.subrange(skip, step.events.len() as int), step.action)
            &&& calls.len() == 0 ==> step.action is NextChunk && step.events == (if content.len() > 0 {
                seq![EventView::ContentChunk(content)]
            } else {
                Seq::<EventView>::empty()
            })
        }),
{
    let content = response.message.content;
    let calls = response.message.tool_calls;
    let step = chunk_step(tools, Some(Ok(response)));
    lemma_dispatch_deals_with_calls(tools, calls, 0);
    let d = dispatch_events(tools, calls, 0);
    let skip: int = if content.len() > 0 { 1 } else { 0 };
    assert(step.events.subrange(skip, step.events.len() as int) =~= d);
    if content.len() == 0 {
        assert forall|i: int| 0 <= i < step.events.len() implies !(#[trigger] step.events[i] is ContentChunk) by {
            assert(step.events[i] == d[i]);
            if i % 2 == 0 {
                assert(d[2 * (i / 2)] is ToolCallStarted);
            } else {
                assert(d[2 * (i / 2) + 1] is Error);
            }
        }
    }
    if calls.len() == 0 {
        assert(d =~= Seq::<EventView>::empty());
        assert(step.events =~= (if content.len() > 0 {
            seq![EventView::ContentChunk(content)]
        } else {
            Seq::<EventView>::empty()
        }));
    }
}

/// After a tool's outcome, success or failure, the call is concluded first
/// and the chunk's remaining tool calls, from the next one on, are dealt
/// with: a failed tool does not stop the calls that follow it.
pub proof fn lemma_tool_result_continues_with_next_call(
    tools: Seq<ToolInfoView>,
    call: PendingStreamView,
    outcome: Result<Seq<char>, Seq<char>>,
)
    requires
        0 <= call.index < call.calls.len(),
    ensures
        ({
            let step = tool_result_step(tools, call, outcome);
            &&& step.events.len() >= 1
            &&& step.events[0] == match outcome {
                Ok(result) => EventView::ToolCallCompleted { name: call.calls[call.index].name, result },
                Err(e) => EventView::Error("Tool execution failed: "@ + e),
            }
            &&& calls_dealt_with(
                tools,
                call.calls,
                call.index + 1,
                step.events.subrange(1, step.events.len() as int),
                step.action,
            )
        }),
{
    lemma_dispatch_deals_with_calls(tools, call.calls, call.index + 1);
    let step = tool_result_step(tools, call, outcome);
    assert(step.events.subrange(1, step.events.len() as int) =~= dispatch_events(tools, call.calls, call.index + 1));
}

/// The texts of the ends of a stream: a stream that cannot start ends with
/// "Failed to start stream: " and the service's error; a chunk that cannot
/// be read ends it with "Stream error occurred"; the end of the chunks ends
/// it with `Done` alone.
pub proof fn lemma_stream_end_events(tools: Seq<ToolInfoView>, error: Seq<char>)
    ensures
        open_step(Err(error)).events == seq![EventView::Error("Failed to start stream: "@ + error)],
        open_step(Err(error)).action is Stop,
        open_step(Ok(())).events.len() == 0,
        open_step(Ok(())).action is NextChunk,
        chunk_step(tools, Some(Err(()))).events == seq![EventView::Error("Stream error occurred"@)],
        chunk_step(tools, Some(Err(()))).action is Stop,
        chunk_step(tools, None).events == seq![EventView::Done],
        chunk_step(tools, None).action is Stop,
{
}

/// Dispatching tool calls never emits `Done`.
proof fn lemma_no_done_in_dispatch(tools: Seq<ToolInfoView>, calls: Seq<ToolCallView>, k: int)
    requires
        0 <= k <= calls.len(),
    ensures
        forall|i: int| 0 <= i < dispatch_events(tools, calls, k).len() ==> !(#[trigger] dispatch_events(tools, calls, k)[i] is Done),
    decreases calls.len() - k,
{
    if k < calls.len() && tool_index(tools, calls[k].name) is None {
        lemma_no_done_in_dispatch(tools, calls, k + 1);
        let rest = dispatch_events(tools, calls, k + 1);
        let events = dispatch_events(tools, calls, k);
        assert forall|i: int| 0 <= i < events.len() implies !(#[trigger] events[i] is Done) by {
            if i >= 2 {
                assert(events[i] == rest[i - 2]);
            }
        }
    }
}

/// Copies a string into a new one behind a fixed prefix.
fn prefixed(prefix: &str, text: &str) -> (r: String)
    ensures
        r@ == prefix@ + text@,
{
    let mut r = String::from_str(prefix);
    r.append(text);
    r
}

impl<C: ChatHistory> Coordinator<C> {
    /// Begins a streamed chat with `messages`: the request with which the
    /// stream is to be opened, the coordinator's request for them without
    /// the history.  The outcome of opening goes to `stream_on_open`.
    pub fn stream_begin(&self, messages: Vec<ChatMessage>) -> (r: ChatMessageRequest)
        ensures
            r.deep_view() == request_for(self@, messages.deep_view()),
    {
        self.build_request(messages)
    }

    /// Takes the outcome of opening the stream.
    pub fn stream_on_open(&self, outcome: Result<(), String>) -> (r: StreamStep)
        ensures
            r.deep_view() == open_step(
                match outcome {
                    Ok(_) => Ok(()),
                    Err(e) => Err(e@),
                },
            ),
    {
        match outcome {
            Ok(()) => {
                let r = StreamStep { events: Vec::new(), action: StreamAction::NextChunk };
                assert(r.events.deep_view() =~= Seq::<EventView>::empty());
                r
            },
            Err(e) => {
                let mut events = Vec::new();
                events.push(CoordinatorStreamEvent::Error(prefixed("Failed to start stream: ", e.as_str())));
                let r = StreamStep { events, action: StreamAction::Stop };
                assert(r.events.deep_view() =~= seq![EventView::Error(open_failed_text(e@))]);
                r
            },
        }
    }

    /// Appends to `prefix` the events of the tool calls of `calls` from
    /// position `k` on, and gives the action that follows them.
    fn dispatch_stream_calls(&self, calls: Vec<ToolCall>, k: usize, prefix: Vec<CoordinatorStreamEvent>) -> (r: StreamStep)
        requires
            k <= calls.len(),
        ensures
            r.deep_view() == (StreamStepView {
                events: prefix.deep_view() + dispatch_events(self@.tool_infos, calls.deep_view(), k as int),
                action: dispatch_action(self@.tool_infos, calls.deep_view(), k as int),
            }),
    {
        let ghost tools = self@.tool_infos;
        let ghost cv = calls.deep_view();
        let ghost initial = prefix.deep_view();
        let mut events = prefix;
        let mut j = k;
        while j < calls.len()
            invariant
                k <= j <= calls.len(),
                cv == calls.deep_view(),
                initial == prefix.deep_view(),
                tools == self@.tool_infos,
                initial + dispatch_events(tools, cv, k as int) == events.deep_view()
                    + dispatch_events(tools, cv, j as int),
                dispatch_action(tools, cv, k as int) == dispatch_action(tools, cv, j as int),
            decreases calls.len() - j,
        {
            assert(cv[j as int] == calls[j as int].deep_view());
            let ghost before = events.deep_view();
            let name = &calls[j].function.name;
            events.push(
                CoordinatorStreamEvent::ToolCallStarted {
                    name: name.clone(),
                    args: calls[j].function.arguments.clone(),
                },
            );
            let ghost started = EventView::ToolCallStarted { name: cv[j as int].name, args: cv[j as int].arguments };
            assert(events.deep_view() =~= before.push(started));
            match self.find_tool(name) {
                Some(i) => {
                    assert(dispatch_events(tools, cv, j as int) == seq![started]);
                    assert(before + seq![started] =~= before.push(started));
                    return StreamStep {
                        events,
                        action: StreamAction::CallTool(PendingStreamTool { tool: i, calls, index: j }),
                    };
                },
                None => {
                    let ghost err = EventView::Error(unknown_tool_text(cv[j as int].name));
                    events.push(CoordinatorStreamEvent::Error(prefixed("Unknown tool: ", name.as_str())));
                    assert(events.deep_view() =~= before.push(started).push(err));
                    assert(dispatch_events(tools, cv, j as int) == seq![started, err] + dispatch_events(tools, cv, j + 1));
                    assert(before + (seq![started, err] + dispatch_events(tools, cv, j + 1)) =~= before.push(started).push(err) + dispatch_events(tools, cv, j + 1));
                },
            }
            j = j + 1;
        }
        assert(dispatch_events(tools, cv, j as int) =~= Seq::<EventView>::empty());
        assert(events.deep_view() + Seq::<EventView>::empty() =~= events.deep_view());
        StreamStep { events, action: StreamAction::NextChunk }
    }

    /// Takes the next chunk of the stream: `None` when the stream has ended,
    /// an error when the chunk could not be read.
    pub fn stream_on_chunk(&self, chunk: Option<Result<ChatMessageResponse, ()>>) -> (r: StreamStep)
        ensures
            r.deep_view() == chunk_step(self@.tool_infos, chunk_view(chunk)),
    {
        match chunk {
            None => {
                let mut events = Vec::new();
                events.push(CoordinatorStreamEvent::Done);
                let r = StreamStep { events, action: StreamAction::Stop };
                assert(r.events.deep_view() =~= seq![EventView::Done]);
                r
            },
            Some(Err(())) => {
                let mut events = Vec::new();
                events.push(CoordinatorStreamEvent::Error(String::from_str("Stream error occurred")));
                let r = StreamStep { events, action: StreamAction::Stop };
                assert(r.events.deep_view() =~= seq![EventView::Error(chunk_failed_text())]);
                r
            },
            Some(Ok(response)) => {
                let ghost rv = response.deep_view();
                let mut events = Vec::new();
                if !response.message.content.as_str().is_empty() {
                    events.push(CoordinatorStreamEvent::ContentChunk(response.message.content.clone()));
                    assert(events.deep_view() =~= seq![EventView::ContentChunk(rv.message.content)]);
                } else {
                    assert(events.deep_view() =~= Seq::<EventView>::empty());
                }
                self.dispatch_stream_calls(response.message.tool_calls, 0, events)
            },
        }
    }

    /// Takes the outcome of a tool call.  A result is announced and saved in
    /// the history as the tool's answer; a failure is announced as an error.
    /// The remaining tool calls of the chunk follow.
    pub fn stream_on_tool_result(&mut self, call: PendingStreamTool, outcome: Result<String, String>) -> (r: StreamStep)
        ensures
            r.deep_view() == tool_result_step(
                old(self)@.tool_infos,
                call.deep_view(),
                match outcome {
                    Ok(result) => Ok(result@),
                    Err(e) => Err(e@),
                },
            ),
            match outcome {
                Ok(result) => final(self)@ == (CoordinatorView {
                    history: old(self)@.history.push(
                        tool_message_view(result@, call.deep_view().calls[call.deep_view().index].name),
                    ),
                    ..old(self)@
                }),
                Err(_) => final(self)@ == old(self)@,
            },
    {
        proof {
            use_type_invariant(&call);
        }
        let mut events = Vec::new();
        match outcome {
            Ok(result) => {
                let name = call.name().clone();
                events.push(
                    CoordinatorStreamEvent::ToolCallCompleted { name: name.clone(), result: result.clone() },
                );
                assert(events.deep_view() =~= seq![EventView::ToolCallCompleted { name: name@, result: result@ }]);
                self.record(ChatMessage::tool(result, name));
            },
            Err(e) => {
                events.push(CoordinatorStreamEvent::Error(prefixed("Tool execution failed: ", e.as_str())));
                assert(events.deep_view() =~= seq![EventView::Error(tool_failed_text(e@))]);
            },
        }
        self.dispatch_stream_calls(call.calls, call.index + 1, events)
    }
}

} // verus!
