//! The coordinator: its settings, its registered tools and its chat history,
//! and the requests it sends.
use vstd::prelude::*;

use crate::history::ChatHistory;
use crate::types::{
    clone_tool_infos, ChatMessage, ChatMessageRequest, FormatType, FormatView, KeepAlive,
    MessageRole, MessageView, ModelOptions, RequestView, ToolInfo, ToolInfoView,
};

verus! {

/// A coordinator of chat interactions and tool usage.
///
/// It keeps the model to talk to, the generation settings, the chat history,
/// the tools the model may call and the optional settings of each request.
pub struct Coordinator<C: ChatHistory> {
    model: String,
    options: ModelOptions,
    history: C,
    tool_infos: Vec<ToolInfo>,
    debug: bool,
    format: Option<FormatType>,
    keep_alive: Option<KeepAlive>,
    think: Option<bool>,
}

/// Abstract value of a coordinator.
///
/// `tool_infos` lists the registered tools in the order of registration; the
/// tool that answers to a name is the last one registered under it.
pub struct CoordinatorView {
    pub model: Seq<char>,
    pub options: Seq<(Seq<char>, Seq<char>)>,
    pub history: Seq<MessageView>,
    pub tool_infos: Seq<ToolInfoView>,
    pub debug: bool,
    pub format: Option<FormatView>,
    pub keep_alive: Option<KeepAlive>,
    pub think: Option<bool>,
}

impl<C: ChatHistory> View for Coordinator<C> {
    type V = CoordinatorView;

    closed spec fn view(&self) -> CoordinatorView {
        CoordinatorView {
            model: self.model@,
            options: self.options.deep_view(),
            history: self.history.history_view(),
            tool_infos: self.tool_infos.deep_view(),
            debug: self.debug,
            format: self.format.deep_view(),
            keep_alive: self.keep_alive,
            think: self.think,
        }
    }
}

/// Whether a configured answer format goes on the next request: always when
/// no tool is registered; otherwise only once the last message of the
/// history is a tool's answer, since the model would not call a tool on a
/// request that fixes the format.
pub open spec fn format_applies(c: CoordinatorView) -> bool {
    c.tool_infos.len() == 0 || (c.history.len() > 0 && c.history.last().role
        == MessageRole::Tool)
}

/// The request that a coordinator in state `c` makes of `messages`.
pub open spec fn request_for(c: CoordinatorView, messages: Seq<MessageView>) -> RequestView {
    RequestView {
        model_name: c.model,
        messages,
        tools: c.tool_infos,
        format: if format_applies(c) {
            c.format
        } else {
            None
        },
        options: Some(c.options),
        keep_alive: c.keep_alive,
        think: c.think,
    }
}

/// The index of the tool that answers to `name`: the last one registered
/// under that name.
pub open spec fn tool_index(tools: Seq<ToolInfoView>, name: Seq<char>) -> Option<int>
    decreases tools.len(),
{
    if tools.len() == 0 {
        None
    } else if tools.last().name == name {
        Some(tools.len() - 1)
    } else {
        tool_index(tools.drop_last(), name)
    }
}

/// What `tool_index` finds: the last tool registered under `name`, and none
/// when no tool has that name.
pub proof fn lemma_tool_index(tools: Seq<ToolInfoView>, name: Seq<char>)
    ensures
        match tool_index(tools, name) {
            Some(i) => {
                &&& 0 <= i < tools.len()
                &&& tools[i].name == name
                &&& forall|j: int| i < j < tools.len() ==> tools[j].name != name
            },
            None => forall|j: int| 0 <= j < tools.len() ==> tools[j].name != name,
        },
    decreases tools.len(),
{
    if tools.len() > 0 && tools.last().name != name {
        lemma_tool_index(tools.drop_last(), name);
        assert forall|j: int| 0 <= j < tools.len() - 1 implies tools[j] == tools.drop_last()[j] by {}
    }
}

/// Registering a tool makes it the one that answers to its name, and leaves
/// the tool that answers to any other name as it was.
pub proof fn lemma_latest_tool_answers(tools: Seq<ToolInfoView>, info: ToolInfoView, name: Seq<char>)
    ensures
        tool_index(tools.push(info), info.name) == Some(tools.len() as int),
        name != info.name ==> tool_index(tools.push(info), name) == tool_index(tools, name),
{
    assert(tools.push(info).drop_last() =~= tools);
}

/// The answer format goes on every request when no tool is registered; with
/// tools, it goes on a request only when the history ends with a tool's
/// answer.  The other settings always go on the request as configured.
pub proof fn lemma_format_rule(c: CoordinatorView, messages: Seq<MessageView>)
    ensures
        c.tool_infos.len() == 0 ==> request_for(c, messages).format == c.format,
        c.tool_infos.len() > 0 ==> (request_for(c, messages).format is Some <==> (c.format is Some
            && c.history.len() > 0 && c.history.last().role == MessageRole::Tool)),
        request_for(c, messages).model_name == c.model,
        request_for(c, messages).tools == c.tool_infos,
        request_for(c, messages).options == Some(c.options),
        request_for(c, messages).keep_alive == c.keep_alive,
        request_for(c, messages).think == c.think,
        c.tool_infos.len() > 0 && request_for(c, messages).format is Some ==> request_for(c, messages).format == c.format,
{
}

/// A request carries exactly the messages it is made of, in order.
pub proof fn lemma_request_carries_messages(c: CoordinatorView, messages: Seq<MessageView>)
    ensures
        request_for(c, messages).messages == messages,
        request_for(c, messages).messages.len() == messages.len(),
        forall|i: int| 0 <= i < messages.len() ==> #[trigger] request_for(c, messages).messages[i] == messages[i],
{
}

/// No registered tool has the name `name`.
pub open spec fn no_tool_named(tools: Seq<ToolInfoView>, name: Seq<char>) -> bool {
    forall|t: int| 0 <= t < tools.len() ==> #[trigger] tools[t].name != name
}

/// The tool at index `i` answers to `name`: it has that name and no tool
/// registered after it has.
pub open spec fn answers_to(tools: Seq<ToolInfoView>, name: Seq<char>, i: int) -> bool {
    &&& 0 <= i < tools.len()
    &&& tools[i].name == name
    &&& forall|j: int| i < j < tools.len() ==> #[trigger] tools[j].name != name
}

/// `tool_index` in terms of the registered names: it finds the tool that
/// answers to the name, and nothing exactly when no tool has the name.
pub proof fn lemma_tool_index_meaning(tools: Seq<ToolInfoView>, name: Seq<char>)
    ensures
        tool_index(tools, name) is None <==> no_tool_named(tools, name),
        tool_index(tools, name) matches Some(i) ==> answers_to(tools, name, i),
{
    lemma_tool_index(tools, name);
    if let Some(i) = tool_index(tools, name) {
        assert(tools[i].name == name);
    }
}

impl<C: ChatHistory> Coordinator<C> {
    /// A coordinator for `model` that keeps its conversation in `history`,
    /// with default generation settings, no tools, debugging off and no
    /// optional request setting.
    pub fn new(model: String, history: C) -> (r: Self)
        ensures
            r@ == (CoordinatorView {
                model: model@,
                options: Seq::empty(),
                history: history.history_view(),
                tool_infos: Seq::empty(),
                debug: false,
                format: None,
                keep_alive: None,
                think: None,
            }),
    {
        let r = Coordinator {
            model,
            options: ModelOptions::default(),
            history,
            tool_infos: Vec::new(),
            debug: false,
            format: None,
            keep_alive: None,
            think: None,
        };
        assert(r.tool_infos.deep_view() =~= Seq::<ToolInfoView>::empty());
        r
    }

    /// Registers a tool, described by `info`; a tool registered later under
    /// the same name answers in place of the earlier one.
    pub fn add_tool(self, info: ToolInfo) -> (r: Self)
        ensures
            r@ == (CoordinatorView {
                tool_infos: self@.tool_infos.push(info.deep_view()),
                ..self@
            }),
    {
        let mut s = self;
        let ghost before = s.tool_infos.deep_view();
        let ghost added = info.deep_view();
        s.tool_infos.push(info);
        assert(s.tool_infos.deep_view() =~= before.push(added));
        s
    }

    /// Sets the format of the answers.
    pub fn format(self, format: FormatType) -> (r: Self)
        ensures
            r@ == (CoordinatorView { format: Some(format.deep_view()), ..self@ }),
    {
        Coordinator { format: Some(format), ..self }
    }

    /// Sets the generation settings.
    pub fn options(self, options: ModelOptions) -> (r: Self)
        ensures
            r@ == (CoordinatorView { options: options.deep_view(), ..self@ }),
    {
        Coordinator { options, ..self }
    }

    /// Turns debugging output on or off.
    pub fn debug(self, debug: bool) -> (r: Self)
        ensures
            r@ == (CoordinatorView { debug, ..self@ }),
    {
        Coordinator { debug, ..self }
    }

    /// Sets how long the model stays loaded after each request.
    pub fn keep_alive(self, keep_alive: KeepAlive) -> (r: Self)
        ensures
            r@ == (CoordinatorView { keep_alive: Some(keep_alive), ..self@ }),
    {
        Coordinator { keep_alive: Some(keep_alive), ..self }
    }

    /// Sets whether the model should think before answering.
    pub fn think(self, think: bool) -> (r: Self)
        ensures
            r@ == (CoordinatorView { think: Some(think), ..self@ }),
    {
        Coordinator { think: Some(think), ..self }
    }

    /// The chat history.
    pub fn history(&self) -> (r: &C)
        ensures
            r.history_view() == self@.history,
    {
        &self.history
    }

    /// Whether debugging output is on.
    pub fn is_debug(&self) -> (r: bool)
        ensures
            r == self@.debug,
    {
        self.debug
    }

    /// The name of the model.
    pub fn model(&self) -> (r: &String)
        ensures
            r@ == self@.model,
    {
        &self.model
    }

    /// The index, in the order of registration, of the tool that answers to
    /// `name`, if any.
    pub fn find_tool(&self, name: &String) -> (r: Option<usize>)
        ensures
            match r {
                Some(i) => tool_index(self@.tool_infos, name@) == Some(i as int),
                None => tool_index(self@.tool_infos, name@) is None,
            },
    {
        let ghost tools = self.tool_infos.deep_view();
        let mut i = self.tool_infos.len();
        assert(tools.take(i as int) =~= tools);
        while i > 0
            invariant
                0 <= i <= tools.len(),
                tools == self.tool_infos.deep_view(),
                tool_index(tools, name@) == tool_index(tools.take(i as int), name@),
            decreases i,
        {
            let ghost prefix = tools.take(i as int);
            i = i - 1;
            assert(prefix.last() == tools[i as int]);
            if self.tool_infos[i].name == *name {
                return Some(i);
            }
            assert(prefix.drop_last() =~= tools.take(i as int));
        }
        assert(tools.take(0) =~= Seq::<ToolInfoView>::empty());
        None
    }

    /// Appends a message to the history.
    pub(crate) fn record(&mut self, message: ChatMessage)
        ensures
            final(self)@ == (CoordinatorView {
                history: old(self)@.history.push(message.deep_view()),
                ..old(self)@
            }),
    {
        self.history.push(message);
    }

    /// A copy of the history.
    pub(crate) fn history_messages(&self) -> (r: Vec<ChatMessage>)
        ensures
            r.deep_view() == self@.history,
    {
        self.history.messages()
    }

    /// Whether the last message of the history is a tool's answer.
    fn history_ends_with_tool_answer(&self) -> (r: bool)
        ensures
            r == (self@.history.len() > 0 && self@.history.last().role == MessageRole::Tool),
    {
        let messages = self.history.messages();
        let n = messages.len();
        if n == 0 {
            false
        } else {
            let ghost views = messages.deep_view();
            assert(views[n - 1] == messages[n - 1].deep_view());
            messages[n - 1].role == MessageRole::Tool
        }
    }

    /// The request for `messages`: the coordinator's model, its tools, its
    /// generation settings, its keep-alive and think settings, and its answer
    /// format where `format_applies`.
    pub fn build_request(&self, messages: Vec<ChatMessage>) -> (r: ChatMessageRequest)
        ensures
            r.deep_view() == request_for(self@, messages.deep_view()),
    {
        let mut request = ChatMessageRequest::new(self.model.clone(), messages).options(
            self.options.clone(),
        ).tools(clone_tool_infos(&self.tool_infos));
        if let Some(keep_alive) = &self.keep_alive {
            request = request.keep_alive(*keep_alive);
        }
        if let Some(think) = &self.think {
            request = request.think(*think);
        }
        if let Some(format) = &self.format {
            if self.tool_infos.len() == 0 {
                request = request.format(format.clone());
            } else if self.history_ends_with_tool_answer() {
                request = request.format(format.clone());
            }
        }
        request
    }
}

} // verus!
