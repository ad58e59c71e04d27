//! A chat with tool calls, one decision at a time.
//!
//! A chat runs in rounds.  Each round adds the new messages to the history
//! and sends the whole history to the service.  The service's answer is added
//! to the history.  When it requests no tool call, the chat ends with that
//! answer; otherwise each requested tool is called in turn, its answer is
//! added to the history, and a new round begins with no new message.  A call
//! of a tool that is not registered, a failing tool and a failing request end
//! the chat with an error.
//!
//! The caller sends the requests and calls the tools: it performs each
//! `ChatAction` and hands what came back to the coordinator, which answers
//! with the next action.
use vstd::prelude::*;

use crate::coordinator::{
    answers_to, lemma_tool_index_meaning, no_tool_named, request_for, tool_index, Coordinator,
    CoordinatorView,
};
use crate::types::MessageRole;
use crate::history::ChatHistory;
use crate::types::{
    tool_message_view, ChatMessage, ChatMessageRequest, ChatMessageResponse, MessageView,
    RequestView, ResponseView,
};

verus! {

/// Why a chat failed.
#[derive(Debug)]
pub enum CoordinatorError {
    /// The model asked for a tool that is not registered.
    UnknownToolName,
    /// A tool failed, with its error message.
    InternalToolError(String),
    /// The request failed, with the service's error message.
    Request(String),
}

/// Abstract value of a chat error.
pub enum ErrorView {
    UnknownToolName,
    InternalToolError(Seq<char>),
    Request(Seq<char>),
}

impl DeepView for CoordinatorError {
    type V = ErrorView;

    open spec fn deep_view(&self) -> ErrorView {
        match self {
            CoordinatorError::UnknownToolName => ErrorView::UnknownToolName,
            CoordinatorError::InternalToolError(e) => ErrorView::InternalToolError(e@),
            CoordinatorError::Request(e) => ErrorView::Request(e@),
        }
    }
}

/// A tool call to perform: the registered tool to call (by its index in the
/// order of registration) and the answer of the service whose tool call it
/// is, with the position of that call.
pub struct PendingToolCall {
    pub(crate) tool: usize,
    pub(crate) response: ChatMessageResponse,
    pub(crate) index: usize,
}

/// Abstract value of a pending tool call.
pub struct PendingView {
    pub tool: int,
    pub response: ResponseView,
    pub index: int,
}

impl PendingToolCall {
    #[verifier::type_invariant]
    spec fn call_exists(self) -> bool {
        self.index < self.response.message.tool_calls.len()
    }

    /// The index of the tool to call, in the order of registration.
    pub fn tool(&self) -> (r: usize)
        ensures
            r == self.deep_view().tool,
    {
        self.tool
    }

    /// The name of the tool that the model asked for.
    pub fn name(&self) -> (r: &String)
        ensures
            r@ == self.deep_view().response.message.tool_calls[self.deep_view().index].name,
    {
        proof {
            use_type_invariant(self);
        }
        let ghost calls = self.response.message.tool_calls.deep_view();
        assert(calls[self.index as int] == self.response.message.tool_calls[self.index as int].deep_view());
        &self.response.message.tool_calls[self.index].function.name
    }

    /// The arguments of the call, as JSON text.
    pub fn arguments(&self) -> (r: &String)
        ensures
            r@ == self.deep_view().response.message.tool_calls[self.deep_view().index].arguments,
    {
        proof {
            use_type_invariant(self);
        }
        let ghost calls = self.response.message.tool_calls.deep_view();
        assert(calls[self.index as int] == self.response.message.tool_calls[self.index as int].deep_view());
        &self.response.message.tool_calls[self.index].function.arguments
    }
}

impl DeepView for PendingToolCall {
    type V = PendingView;

    closed spec fn deep_view(&self) -> PendingView {
        PendingView {
            tool: self.tool as int,
            response: self.response.deep_view(),
            index: self.index as int,
        }
    }
}

/// What the caller does next in a chat.
pub enum ChatAction {
    /// Send this request, and hand the outcome to `chat_on_response`.
    Send(ChatMessageRequest),
    /// Call this tool, and hand the outcome to `chat_on_tool_result`.
    CallTool(PendingToolCall),
    /// The chat is over, with this result.
    Finish(Result<ChatMessageResponse, CoordinatorError>),
}

/// Abstract value of a chat action.
pub enum ChatActionView {
    Send(RequestView),
    CallTool(PendingView),
    Finish(Result<ResponseView, ErrorView>),
}

impl DeepView for ChatAction {
    type V = ChatActionView;

    open spec fn deep_view(&self) -> ChatActionView {
        match self {
            ChatAction::Send(request) => ChatActionView::Send(request.deep_view()),
            ChatAction::CallTool(call) => ChatActionView::CallTool(call.deep_view()),
            ChatAction::Finish(Ok(response)) => ChatActionView::Finish(Ok(response.deep_view())),
            ChatAction::Finish(Err(error)) => ChatActionView::Finish(Err(error.deep_view())),
        }
    }
}

/// The coordinator after a round of `messages` begins: the messages are
/// added to the history.
pub open spec fn after_round_begins(c: CoordinatorView, messages: Seq<MessageView>) -> CoordinatorView {
    CoordinatorView { history: c.history + messages, ..c }
}

/// The request of a round of `messages`: the coordinator's request, carrying
/// the whole history with the new messages.
pub open spec fn round_request(c: CoordinatorView, messages: Seq<MessageView>) -> RequestView {
    RequestView { messages: c.history + messages, ..request_for(c, messages) }
}

/// What follows the answer `response`, once its tool calls before position
/// `k` have been answered: the next tool call, or an error for a tool that
/// is not registered, or, after the last call, a new round with no new
/// message.
pub open spec fn next_after_calls(c: CoordinatorView, response: ResponseView, k: int) -> ChatActionView {
    let calls = response.message.tool_calls;
    if k >= calls.len() {
        ChatActionView::Send(round_request(c, Seq::empty()))
    } else {
        match tool_index(c.tool_infos, calls[k].name) {
            Some(i) => ChatActionView::CallTool(PendingView { tool: i, response, index: k }),
            None => ChatActionView::Finish(Err(ErrorView::UnknownToolName)),
        }
    }
}

/// A chat ends with an answer only when that answer requests no tool call:
/// what follows tool calls is never a successful end.  A tool that is called
/// is the last one registered under the name that the model asked for.
pub proof fn lemma_tool_calls_never_end_chat(c: CoordinatorView, response: ResponseView, k: int)
    requires
        0 <= k,
    ensures
        !(next_after_calls(c, response, k) matches ChatActionView::Finish(Ok(_))),
        next_after_calls(c, response, k) matches ChatActionView::CallTool(p) ==> {
            &&& p.index == k
            &&& p.response == response
            &&& 0 <= p.tool < c.tool_infos.len()
            &&& c.tool_infos[p.tool].name == response.message.tool_calls[k].name
            &&& forall|j: int| p.tool < j < c.tool_infos.len() ==> c.tool_infos[j].name
                != response.message.tool_calls[k].name
        },
        next_after_calls(c, response, k) matches ChatActionView::Finish(Err(e)) ==> {
            &&& e is UnknownToolName
            &&& forall|j: int| 0 <= j < c.tool_infos.len() ==> c.tool_infos[j].name
                != response.message.tool_calls[k].name
        },
{
    let calls = response.message.tool_calls;
    if k < calls.len() {
        crate::coordinator::lemma_tool_index(c.tool_infos, calls[k].name);
    }
}

/// The request of a chat round carries the whole history with the round's
/// new messages, and the coordinator's settings: its model, its tools, its
/// generation settings, its keep-alive and think settings, and its answer
/// format when no tool is registered or the history ends with a tool's
/// answer (and no format otherwise).
pub proof fn lemma_round_request_settings(c: CoordinatorView, messages: Seq<MessageView>)
    ensures
        round_request(c, messages).messages == c.history + messages,
        round_request(c, messages).model_name == c.model,
        round_request(c, messages).tools == c.tool_infos,
        round_request(c, messages).options == Some(c.options),
        round_request(c, messages).keep_alive == c.keep_alive,
        round_request(c, messages).think == c.think,
        (c.tool_infos.len() == 0 || (c.history.len() > 0 && c.history.last().role == MessageRole::Tool))
            ==> round_request(c, messages).format == c.format,
        !(c.tool_infos.len() == 0 || (c.history.len() > 0 && c.history.last().role == MessageRole::Tool))
            ==> round_request(c, messages).format is None,
{
}

/// Every tool call of an answer is dealt with in order: the call at
/// position `k` of a registered tool is executed next, by the tool that
/// answers to its name; a call of a tool that is not registered ends the
/// chat with `UnknownToolName`; and a new round, carrying the whole history
/// and the coordinator's settings, begins only once every call is done.
pub proof fn lemma_each_tool_call_runs(c: CoordinatorView, response: ResponseView, k: int)
    requires
        0 <= k,
    ensures
        ({
            let calls = response.message.tool_calls;
            let next = next_after_calls(c, response, k);
            &&& k < calls.len() && !no_tool_named(c.tool_infos, calls[k].name) ==> (next matches ChatActionView::CallTool(p) && {
                &&& p.index == k
                &&& p.response == response
                &&& answers_to(c.tool_infos, calls[k].name, p.tool)
            })
            &&& k < calls.len() && no_tool_named(c.tool_infos, calls[k].name) ==> next
                == ChatActionView::Finish(Err(ErrorView::UnknownToolName))
            &&& k >= calls.len() ==> (next matches ChatActionView::Send(r) && {
                &&& r.messages == c.history
                &&& r.model_name == c.model
                &&& r.tools == c.tool_infos
                &&& r.options == Some(c.options)
                &&& r.keep_alive == c.keep_alive
                &&& r.think == c.think
            })
            &&& next is Send ==> k >= calls.len()
        }),
{
    let calls = response.message.tool_calls;
    if k < calls.len() {
        lemma_tool_index_meaning(c.tool_infos, calls[k].name);
    }
    assert(c.history + Seq::<MessageView>::empty() =~= c.history);
}

/// A tool's answer is recorded as a message of the tool, with the answer as
/// its text, no tool call and the tool's name; so once it is recorded, the
/// next round's request carries the configured answer format even when
/// tools are registered.
pub proof fn lemma_tool_answer_unlocks_format(c: CoordinatorView, answer: Seq<char>, name: Seq<char>)
    ensures
        tool_message_view(answer, name).role == MessageRole::Tool,
        tool_message_view(answer, name).content == answer,
        tool_message_view(answer, name).tool_calls.len() == 0,
        tool_message_view(answer, name).tool_name == Some(name),
        round_request(
            CoordinatorView { history: c.history.push(tool_message_view(answer, name)), ..c },
            Seq::empty(),
        ).format == c.format,
{
}

/// Each request of a chat carries the whole conversation: the history as it
/// stands once the round's new messages are added.
pub proof fn lemma_round_sends_history(c: CoordinatorView, messages: Seq<MessageView>)
    ensures
        round_request(c, messages).messages == after_round_begins(c, messages).history,
        after_round_begins(c, messages).history == c.history + messages,
{
}

impl<C: ChatHistory> Coordinator<C> {
    /// Begins a chat with `messages`: they are added to the history, and the
    /// whole history is to be sent.
    pub fn chat_begin(&mut self, messages: Vec<ChatMessage>) -> (r: ChatAction)
        ensures
            final(self)@ == after_round_begins(old(self)@, messages.deep_view()),
            r.deep_view() == ChatActionView::Send(round_request(old(self)@, messages.deep_view())),
    {
        let ghost start = self@;
        let ghost added = messages.deep_view();
        // The request's settings are taken before the messages join the
        // history, so that the format rule sees the history as it stood; its
        // messages are replaced by the whole history below.
        let mut request = self.build_request(Vec::new());
        let mut rest = messages;
        while rest.len() > 0
            invariant
                self@ == after_round_begins(start, added.take(added.len() - rest.len())),
                rest.deep_view() == added.skip(added.len() - rest.len()),
                rest.len() <= added.len(),
            decreases rest.len(),
        {
            let ghost done = added.len() - rest.len();
            let ghost before = rest@;
            let ghost before_views = rest.deep_view();
            assert(rest.deep_view()[0] == before[0].deep_view());
            assert(added.skip(done)[0] == added[done]);
            let m = rest.remove(0);
            assert(m.deep_view() == added[done]);
            self.record(m);
            assert(added.take(done) + seq![added[done]] =~= added.take(done + 1));
            assert(start.history + added.take(done + 1) =~= (start.history + added.take(done)).push(added[done]));
            assert(rest@ =~= before.subrange(1, before.len() as int));
            assert forall|j: int| 0 <= j < rest.len() implies rest.deep_view()[j] == added.skip(done + 1)[j] by {
                assert(rest.deep_view()[j] == before[j + 1].deep_view());
                assert(before_views[j + 1] == before[j + 1].deep_view());
            }
            assert(rest.deep_view() =~= added.skip(done + 1));
        }
        assert(added.take(added.len() as int) =~= added);
        request.messages = self.history_messages();
        ChatAction::Send(request)
    }

    /// What follows the answer `response` once its calls before position `k`
    /// are answered.
    fn continue_calls(&mut self, response: ChatMessageResponse, k: usize) -> (r: ChatAction)
        requires
            k <= response.message.tool_calls.len(),
        ensures
            final(self)@ == old(self)@,
            r.deep_view() == next_after_calls(old(self)@, response.deep_view(), k as int),
    {
        let ghost calls = response.message.tool_calls.deep_view();
        if k == response.message.tool_calls.len() {
            let none: Vec<ChatMessage> = Vec::new();
            assert(none.deep_view() =~= Seq::<MessageView>::empty());
            let r = self.chat_begin(none);
            assert(self@.history =~= old(self)@.history);
            r
        } else {
            assert(calls[k as int] == response.message.tool_calls[k as int].deep_view());
            assert(response.message.tool_calls[k as int].function.name@ == calls[k as int].name);
            let found = self.find_tool(&response.message.tool_calls[k].function.name);
            match found {
                Some(i) => ChatAction::CallTool(PendingToolCall { tool: i, response, index: k }),
                None => ChatAction::Finish(Err(CoordinatorError::UnknownToolName)),
            }
        }
    }

    /// Takes the outcome of a request.  A failed request ends the chat with
    /// its error.  An answer is added to the history; without tool calls it
    /// ends the chat, otherwise its first tool call is next.
    pub fn chat_on_response(&mut self, outcome: Result<ChatMessageResponse, String>) -> (r: ChatAction)
        ensures
            match outcome {
                Err(e) => {
                    &&& final(self)@ == old(self)@
                    &&& r.deep_view() == ChatActionView::Finish(Err(ErrorView::Request(e@)))
                },
                Ok(response) => {
                    let answered = CoordinatorView {
                        history: old(self)@.history.push(response.message.deep_view()),
                        ..old(self)@
                    };
                    if response.message.tool_calls.len() == 0 {
                        &&& final(self)@ == answered
                        &&& r.deep_view() == ChatActionView::Finish(Ok(response.deep_view()))
                    } else {
                        &&& final(self)@ == answered
                        &&& r.deep_view() == next_after_calls(answered, response.deep_view(), 0)
                    }
                },
            },
    {
        match outcome {
            Err(e) => ChatAction::Finish(Err(CoordinatorError::Request(e))),
            Ok(response) => {
                self.record(response.message.clone());
                if response.message.tool_calls.len() == 0 {
                    ChatAction::Finish(Ok(response))
                } else {
                    self.continue_calls(response, 0)
                }
            },
        }
    }

    /// Takes the outcome of a tool call.  A failed tool ends the chat with
    /// its error.  A tool's answer is added to the history, and the next tool
    /// call, or a new round, follows.
    pub fn chat_on_tool_result(&mut self, call: PendingToolCall, outcome: Result<String, String>) -> (r: ChatAction)
        ensures
            match outcome {
                Err(e) => {
                    &&& final(self)@ == old(self)@
                    &&& r.deep_view() == ChatActionView::Finish(Err(ErrorView::InternalToolError(e@)))
                },
                Ok(answer) => {
                    let p = call.deep_view();
                    let calls = p.response.message.tool_calls;
                    let answered = CoordinatorView {
                        history: old(self)@.history.push(
                            tool_message_view(answer@, calls[p.index].name),
                        ),
                        ..old(self)@
                    };
                    &&& final(self)@ == answered
                    &&& r.deep_view() == next_after_calls(answered, p.response, p.index + 1)
                },
            },
    {
        proof {
            use_type_invariant(&call);
        }
        match outcome {
            Err(e) => ChatAction::Finish(Err(CoordinatorError::InternalToolError(e))),
            Ok(answer) => {
                let name = call.name().clone();
                self.record(ChatMessage::tool(answer, name));
                self.continue_calls(call.response, call.index + 1)
            },
        }
    }
}

} // verus!
