//! Messages, requests and responses exchanged with the chat service, and
//! their abstract values.
use vstd::prelude::*;

verus! {

/// Who wrote a chat message.
#[derive(Clone, Copy, Debug, PartialEq, Eq, Structural)]
pub enum MessageRole {
    User,
    Assistant,
    System,
    Tool,
}

impl DeepView for MessageRole {
    type V = MessageRole;

    open spec fn deep_view(&self) -> MessageRole {
        *self
    }
}

/// The function part of a tool call requested by the model: the tool's name
/// and its arguments as JSON text.
#[derive(Debug)]
pub struct ToolCallFunction {
    pub name: String,
    pub arguments: String,
}

/// A tool call requested by the model.
#[derive(Debug)]
pub struct ToolCall {
    pub function: ToolCallFunction,
}

/// Abstract value of a tool call.
pub struct ToolCallView {
    pub name: Seq<char>,
    pub arguments: Seq<char>,
}

impl DeepView for ToolCallFunction {
    type V = ToolCallView;

    open spec fn deep_view(&self) -> ToolCallView {
        ToolCallView { name: self.name@, arguments: self.arguments@ }
    }
}

impl DeepView for ToolCall {
    type V = ToolCallView;

    open spec fn deep_view(&self) -> ToolCallView {
        self.function.deep_view()
    }
}

impl Clone for ToolCallFunction {
    fn clone(&self) -> (r: Self)
        ensures
            r.deep_view() == self.deep_view(),
    {
        ToolCallFunction { name: self.name.clone(), arguments: self.arguments.clone() }
    }
}

impl Clone for ToolCall {
    fn clone(&self) -> (r: Self)
        ensures
            r.deep_view() == self.deep_view(),
    {
        ToolCall { function: self.function.clone() }
    }
}

/// A chat message: its author, its text, the tool calls it requests and,
/// for a tool's answer, the name of the tool that answered.
#[derive(Debug)]
pub struct ChatMessage {
    pub role: MessageRole,
    pub content: String,
    pub tool_calls: Vec<ToolCall>,
    pub tool_name: Option<String>,
}

/// Abstract value of a chat message.
pub struct MessageView {
    pub role: MessageRole,
    pub content: Seq<char>,
    pub tool_calls: Seq<ToolCallView>,
    pub tool_name: Option<Seq<char>>,
}

impl DeepView for ChatMessage {
    type V = MessageView;

    open spec fn deep_view(&self) -> MessageView {
        MessageView {
            role: self.role,
            content: self.content@,
            tool_calls: self.tool_calls.deep_view(),
            tool_name: self.tool_name.deep_view(),
        }
    }
}

/// The message that records a tool's answer in a chat history.
pub open spec fn tool_message_view(content: Seq<char>, tool_name: Seq<char>) -> MessageView {
    MessageView {
        role: MessageRole::Tool,
        content,
        tool_calls: Seq::empty(),
        tool_name: Some(tool_name),
    }
}

/// Copies a vector of tool calls.
pub fn clone_tool_calls(calls: &Vec<ToolCall>) -> (r: Vec<ToolCall>)
    ensures
        r.deep_view() == calls.deep_view(),
{
    let r = calls.clone();
    assert(r.deep_view() =~= calls.deep_view());
    r
}

/// Copies an optional string.
pub fn clone_opt_string(s: &Option<String>) -> (r: Option<String>)
    ensures
        r.deep_view() == s.deep_view(),
{
    match s {
        Some(t) => Some(t.clone()),
        None => None,
    }
}

impl Clone for ChatMessage {
    fn clone(&self) -> (r: Self)
        ensures
            r.deep_view() == self.deep_view(),
    {
        ChatMessage {
            role: self.role,
            content: self.content.clone(),
            tool_calls: clone_tool_calls(&self.tool_calls),
            tool_name: clone_opt_string(&self.tool_name),
        }
    }
}

impl ChatMessage {
    /// A message with the given author and text, requesting no tool call.
    pub fn new(role: MessageRole, content: String) -> (r: Self)
        ensures
            r.deep_view() == (MessageView {
                role,
                content: content@,
                tool_calls: Seq::empty(),
                tool_name: None,
            }),
    {
        let r = ChatMessage { role, content, tool_calls: Vec::new(), tool_name: None };
        assert(r.tool_calls.deep_view() =~= Seq::<ToolCallView>::empty());
        r
    }

    /// A message written by the user.
    pub fn user(content: String) -> (r: Self)
        ensures
            r.deep_view() == (MessageView {
                role: MessageRole::User,
                content: content@,
                tool_calls: Seq::empty(),
                tool_name: None,
            }),
    {
        Self::new(MessageRole::User, content)
    }

    /// A message written by the assistant.
    pub fn assistant(content: String) -> (r: Self)
        ensures
            r.deep_view() == (MessageView {
                role: MessageRole::Assistant,
                content: content@,
                tool_calls: Seq::empty(),
                tool_name: None,
            }),
    {
        Self::new(MessageRole::Assistant, content)
    }

    /// A system prompt.
    pub fn system(content: String) -> (r: Self)
        ensures
            r.deep_view() == (MessageView {
                role: MessageRole::System,
                content: content@,
                tool_calls: Seq::empty(),
                tool_name: None,
            }),
    {
        Self::new(MessageRole::System, content)
    }

    /// The answer of the tool named `tool_name`.
    pub fn tool(content: String, tool_name: String) -> (r: Self)
        ensures
            r.deep_view() == tool_message_view(content@, tool_name@),
    {
        let r = ChatMessage {
            role: MessageRole::Tool,
            content,
            tool_calls: Vec::new(),
            tool_name: Some(tool_name),
        };
        assert(r.tool_calls.deep_view() =~= Seq::<ToolCallView>::empty());
        r
    }
}

/// What the model is told of a tool: its name, what it does, and the JSON
/// schema of its parameters.
#[derive(Debug)]
pub struct ToolInfo {
    pub name: String,
    pub description: String,
    pub parameters: String,
}

/// Abstract value of a tool description.
pub struct ToolInfoView {
    pub name: Seq<char>,
    pub description: Seq<char>,
    pub parameters: Seq<char>,
}

impl DeepView for ToolInfo {
    type V = ToolInfoView;

    open spec fn deep_view(&self) -> ToolInfoView {
        ToolInfoView {
            name: self.name@,
            description: self.description@,
            parameters: self.parameters@,
        }
    }
}

impl Clone for ToolInfo {
    fn clone(&self) -> (r: Self)
        ensures
            r.deep_view() == self.deep_view(),
    {
        ToolInfo {
            name: self.name.clone(),
            description: self.description.clone(),
            parameters: self.parameters.clone(),
        }
    }
}

impl ToolInfo {
    /// Describes a tool.
    pub fn new(name: String, description: String, parameters: String) -> (r: Self)
        ensures
            r.deep_view() == (ToolInfoView {
                name: name@,
                description: description@,
                parameters: parameters@,
            }),
    {
        ToolInfo { name, description, parameters }
    }
}

/// Copies a vector of tool descriptions.
pub fn clone_tool_infos(infos: &Vec<ToolInfo>) -> (r: Vec<ToolInfo>)
    ensures
        r.deep_view() == infos.deep_view(),
{
    let r = infos.clone();
    assert(r.deep_view() =~= infos.deep_view());
    r
}

/// The format that the model's answer must have: any JSON, or JSON that
/// follows the given schema (JSON text).
#[derive(Debug)]
pub enum FormatType {
    Json,
    StructuredJson(String),
}

/// Abstract value of an answer format.
pub enum FormatView {
    Json,
    StructuredJson(Seq<char>),
}

impl DeepView for FormatType {
    type V = FormatView;

    open spec fn deep_view(&self) -> FormatView {
        match self {
            FormatType::Json => FormatView::Json,
            FormatType::StructuredJson(s) => FormatView::StructuredJson(s@),
        }
    }
}

impl Clone for FormatType {
    fn clone(&self) -> (r: Self)
        ensures
            r.deep_view() == self.deep_view(),
    {
        match self {
            FormatType::Json => FormatType::Json,
            FormatType::StructuredJson(s) => FormatType::StructuredJson(s.clone()),
        }
    }
}

/// The unit of a keep-alive duration.
#[derive(Clone, Copy, Debug, PartialEq, Eq, Structural)]
pub enum TimeUnit {
    Seconds,
    Minutes,
    Hours,
}

/// How long the service keeps the model loaded after a request.
#[derive(Clone, Copy, Debug, PartialEq, Eq, Structural)]
pub enum KeepAlive {
    Indefinitely,
    UnloadOnCompletion,
    Until { time: u64, unit: TimeUnit },
}

impl DeepView for KeepAlive {
    type V = KeepAlive;

    open spec fn deep_view(&self) -> KeepAlive {
        *self
    }
}

/// One generation setting of the model, by name, with its value as text.
#[derive(Debug)]
pub struct OptionSetting {
    pub name: String,
    pub value: String,
}

impl DeepView for OptionSetting {
    type V = (Seq<char>, Seq<char>);

    open spec fn deep_view(&self) -> (Seq<char>, Seq<char>) {
        (self.name@, self.value@)
    }
}

impl Clone for OptionSetting {
    fn clone(&self) -> (r: Self)
        ensures
            r.deep_view() == self.deep_view(),
    {
        OptionSetting { name: self.name.clone(), value: self.value.clone() }
    }
}

/// The generation settings of the model; a setting that is not listed keeps
/// the service's default.
#[derive(Debug)]
pub struct ModelOptions {
    pub settings: Vec<OptionSetting>,
}

impl DeepView for ModelOptions {
    type V = Seq<(Seq<char>, Seq<char>)>;

    open spec fn deep_view(&self) -> Seq<(Seq<char>, Seq<char>)> {
        self.settings.deep_view()
    }
}

impl Clone for ModelOptions {
    fn clone(&self) -> (r: Self)
        ensures
            r.deep_view() == self.deep_view(),
    {
        let settings = self.settings.clone();
        assert(settings.deep_view() =~= self.settings.deep_view());
        ModelOptions { settings }
    }
}

impl Default for ModelOptions {
    fn default() -> (r: Self)
        ensures
            r.deep_view() == Seq::<(Seq<char>, Seq<char>)>::empty(),
    {
        let r = ModelOptions { settings: Vec::new() };
        assert(r.deep_view() =~= Seq::<(Seq<char>, Seq<char>)>::empty());
        r
    }
}

/// A chat request: the model, the conversation so far, the tools the model
/// may call, and the optional settings of the request.
#[derive(Debug)]
pub struct ChatMessageRequest {
    pub model_name: String,
    pub messages: Vec<ChatMessage>,
    pub tools: Vec<ToolInfo>,
    pub format: Option<FormatType>,
    pub options: Option<ModelOptions>,
    pub keep_alive: Option<KeepAlive>,
    pub think: Option<bool>,
}

/// Abstract value of a chat request.
pub struct RequestView {
    pub model_name: Seq<char>,
    pub messages: Seq<MessageView>,
    pub tools: Seq<ToolInfoView>,
    pub format: Option<FormatView>,
    pub options: Option<Seq<(Seq<char>, Seq<char>)>>,
    pub keep_alive: Option<KeepAlive>,
    pub think: Option<bool>,
}

impl DeepView for ChatMessageRequest {
    type V = RequestView;

    open spec fn deep_view(&self) -> RequestView {
        RequestView {
            model_name: self.model_name@,
            messages: self.messages.deep_view(),
            tools: self.tools.deep_view(),
            format: self.format.deep_view(),
            options: self.options.deep_view(),
            keep_alive: self.keep_alive,
            think: self.think,
        }
    }
}

impl ChatMessageRequest {
    /// A request for `model_name` with the given messages and nothing else set.
    pub fn new(model_name: String, messages: Vec<ChatMessage>) -> (r: Self)
        ensures
            r.deep_view() == (RequestView {
                model_name: model_name@,
                messages: messages.deep_view(),
                tools: Seq::empty(),
                format: None,
                options: None,
                keep_alive: None,
                think: None,
            }),
    {
        let r = ChatMessageRequest {
            model_name,
            messages,
            tools: Vec::new(),
            format: None,
            options: None,
            keep_alive: None,
            think: None,
        };
        assert(r.tools.deep_view() =~= Seq::<ToolInfoView>::empty());
        r
    }

    /// Sets the generation settings.
    pub fn options(self, options: ModelOptions) -> (r: Self)
        ensures
            r.deep_view() == (RequestView { options: Some(options.deep_view()), ..self.deep_view() }),
    {
        ChatMessageRequest { options: Some(options), ..self }
    }

    /// Sets the tools that the model may call.
    pub fn tools(self, tools: Vec<ToolInfo>) -> (r: Self)
        ensures
            r.deep_view() == (RequestView { tools: tools.deep_view(), ..self.deep_view() }),
    {
        ChatMessageRequest { tools, ..self }
    }

    /// Sets the format of the answer.
    pub fn format(self, format: FormatType) -> (r: Self)
        ensures
            r.deep_view() == (RequestView { format: Some(format.deep_view()), ..self.deep_view() }),
    {
        ChatMessageRequest { format: Some(format), ..self }
    }

    /// Sets how long the model stays loaded.
    pub fn keep_alive(self, keep_alive: KeepAlive) -> (r: Self)
        ensures
            r.deep_view() == (RequestView { keep_alive: Some(keep_alive), ..self.deep_view() }),
    {
        ChatMessageRequest { keep_alive: Some(keep_alive), ..self }
    }

    /// Sets whether the model should think before answering.
    pub fn think(self, think: bool) -> (r: Self)
        ensures
            r.deep_view() == (RequestView { think: Some(think), ..self.deep_view() }),
    {
        ChatMessageRequest { think: Some(think), ..self }
    }
}

/// A response of the chat service, or one chunk of a streamed response.
#[derive(Debug)]
pub struct ChatMessageResponse {
    pub model: String,
    pub created_at: String,
    pub message: ChatMessage,
    pub done: bool,
}

/// Abstract value of a response.
pub struct ResponseView {
    pub model: Seq<char>,
    pub created_at: Seq<char>,
    pub message: MessageView,
    pub done: bool,
}

impl DeepView for ChatMessageResponse {
    type V = ResponseView;

    open spec fn deep_view(&self) -> ResponseView {
        ResponseView {
            model: self.model@,
            created_at: self.created_at@,
            message: self.message.deep_view(),
            done: self.done,
        }
    }
}

} // verus!
