use ollama_coordinator::{
    ChatAction, ChatHistory, ChatMessage, ChatMessageResponse, Coordinator, CoordinatorError,
    CoordinatorStreamEvent, FormatType, KeepAlive, MessageRole, ModelOptions, OptionSetting,
    StreamAction, StreamStep, TimeUnit, ToolCall, ToolCallFunction, ToolInfo,
};

fn info(name: &str) -> ToolInfo {
    ToolInfo::new(
        name.to_string(),
        format!("the {name} tool"),
        "{\"type\":\"object\"}".to_string(),
    )
}

fn call(name: &str, args: &str) -> ToolCall {
    ToolCall { function: ToolCallFunction { name: name.to_string(), arguments: args.to_string() } }
}

fn answer(content: &str, calls: Vec<ToolCall>) -> ChatMessageResponse {
    let mut message = ChatMessage::assistant(content.to_string());
    message.tool_calls = calls;
    ChatMessageResponse {
        model: "mistral-nemo".to_string(),
        created_at: "2024-01-01T00:00:00Z".to_string(),
        message,
        done: true,
    }
}

fn coordinator() -> Coordinator<Vec<ChatMessage>> {
    Coordinator::new("mistral-nemo".to_string(), vec![])
}

fn events_of(step: &StreamStep) -> Vec<String> {
    step.events.iter().map(|e| format!("{e:?}")).collect()
}

#[test]
fn new_coordinator_has_defaults() {
    let c = coordinator();
    assert_eq!(c.model(), "mistral-nemo");
    assert!(c.history().is_empty());
    assert!(!c.is_debug());
    assert_eq!(c.find_tool(&"get_weather".to_string()), None);
    let request = c.build_request(vec![ChatMessage::user("hi".to_string())]);
    assert_eq!(request.model_name, "mistral-nemo");
    assert_eq!(request.messages.len(), 1);
    assert!(request.tools.is_empty());
    assert!(request.format.is_none());
    assert!(request.keep_alive.is_none());
    assert!(request.think.is_none());
    assert!(request.options.unwrap().settings.is_empty());
}

#[test]
fn builders_set_request_settings() {
    let options = ModelOptions {
        settings: vec![OptionSetting { name: "seed".to_string(), value: "42".to_string() }],
    };
    let c = coordinator()
        .options(options)
        .keep_alive(KeepAlive::Until { time: 5, unit: TimeUnit::Minutes })
        .think(true)
        .debug(true)
        .format(FormatType::Json);
    assert!(c.is_debug());
    let request = c.build_request(vec![]);
    assert_eq!(request.keep_alive, Some(KeepAlive::Until { time: 5, unit: TimeUnit::Minutes }));
    assert_eq!(request.think, Some(true));
    let settings = request.options.unwrap().settings;
    assert_eq!(settings.len(), 1);
    assert_eq!(settings[0].name, "seed");
    assert_eq!(settings[0].value, "42");
    // Without tools, the format always goes on the request.
    assert!(matches!(request.format, Some(FormatType::Json)));
}

#[test]
fn format_waits_for_tool_answer_when_tools_are_registered() {
    let c = Coordinator::new("m".to_string(), vec![ChatMessage::user("q".to_string())])
        .add_tool(info("get_weather"))
        .format(FormatType::StructuredJson("{\"type\":\"string\"}".to_string()));
    let request = c.build_request(vec![]);
    assert!(request.format.is_none());
    assert_eq!(request.tools.len(), 1);
    assert_eq!(request.tools[0].name, "get_weather");

    let c = Coordinator::new(
        "m".to_string(),
        vec![ChatMessage::tool("sunny".to_string(), "get_weather".to_string())],
    )
    .add_tool(info("get_weather"))
    .format(FormatType::StructuredJson("{\"type\":\"string\"}".to_string()));
    let request = c.build_request(vec![]);
    match request.format {
        Some(FormatType::StructuredJson(schema)) => assert_eq!(schema, "{\"type\":\"string\"}"),
        other => panic!("unexpected format {other:?}"),
    }
}

#[test]
fn latest_tool_answers_to_its_name() {
    let c = coordinator().add_tool(info("a")).add_tool(info("b")).add_tool(info("a"));
    assert_eq!(c.find_tool(&"a".to_string()), Some(2));
    assert_eq!(c.find_tool(&"b".to_string()), Some(1));
    assert_eq!(c.find_tool(&"c".to_string()), None);
    assert_eq!(c.build_request(vec![]).tools.len(), 3);
}

#[test]
fn chat_runs_tools_and_records_history() {
    let mut c = coordinator().add_tool(info("get_weather")).format(FormatType::Json);
    let action = c.chat_begin(vec![ChatMessage::user("Weather in Portland?".to_string())]);
    let request = match action {
        ChatAction::Send(request) => request,
        _ => panic!("expected a request"),
    };
    assert_eq!(request.messages.len(), 1);
    assert_eq!(request.messages[0].content, "Weather in Portland?");
    assert!(request.format.is_none());
    assert_eq!(c.history().len(), 1);

    let action = c.chat_on_response(Ok(answer(
        "",
        vec![call("get_weather", "{\"city\":\"Portland\"}")],
    )));
    let pending = match action {
        ChatAction::CallTool(p) => p,
        _ => panic!("expected a tool call"),
    };
    assert_eq!(pending.tool(), 0);
    assert_eq!(pending.name(), "get_weather");
    assert_eq!(pending.arguments(), "{\"city\":\"Portland\"}");
    assert_eq!(c.history().len(), 2);
    assert_eq!(c.history()[1].tool_calls.len(), 1);

    let action = c.chat_on_tool_result(pending, Ok("sunny and 72°F".to_string()));
    let request = match action {
        ChatAction::Send(request) => request,
        _ => panic!("expected a new round"),
    };
    assert_eq!(c.history().len(), 3);
    assert_eq!(c.history()[2].role, MessageRole::Tool);
    assert_eq!(c.history()[2].content, "sunny and 72°F");
    assert_eq!(c.history()[2].tool_name.as_deref(), Some("get_weather"));
    // The new round carries the whole history and, after the tool's answer,
    // the configured format.
    assert_eq!(request.messages.len(), 3);
    assert!(matches!(request.format, Some(FormatType::Json)));

    let action = c.chat_on_response(Ok(answer("It is sunny.", vec![])));
    match action {
        ChatAction::Finish(Ok(response)) => assert_eq!(response.message.content, "It is sunny."),
        _ => panic!("expected the final answer"),
    }
    assert_eq!(c.history().len(), 4);
}

#[test]
fn chat_calls_each_tool_in_order() {
    let mut c = coordinator().add_tool(info("a")).add_tool(info("b"));
    c.chat_begin(vec![ChatMessage::user("go".to_string())]);
    let action = c.chat_on_response(Ok(answer("", vec![call("b", "{}"), call("a", "[1]")])));
    let first = match action {
        ChatAction::CallTool(p) => p,
        _ => panic!("expected a tool call"),
    };
    assert_eq!(first.tool(), 1);
    let second = match c.chat_on_tool_result(first, Ok("B".to_string())) {
        ChatAction::CallTool(p) => p,
        _ => panic!("expected a second tool call"),
    };
    assert_eq!(second.tool(), 0);
    assert_eq!(second.arguments(), "[1]");
    match c.chat_on_tool_result(second, Ok("A".to_string())) {
        ChatAction::Send(request) => assert_eq!(request.messages.len(), 4),
        _ => panic!("expected a new round"),
    }
    assert_eq!(c.history()[2].content, "B");
    assert_eq!(c.history()[3].content, "A");
}

#[test]
fn chat_unknown_tool_is_an_error() {
    let mut c = coordinator().add_tool(info("a"));
    c.chat_begin(vec![ChatMessage::user("go".to_string())]);
    match c.chat_on_response(Ok(answer("", vec![call("nope", "{}")]))) {
        ChatAction::Finish(Err(CoordinatorError::UnknownToolName)) => {}
        _ => panic!("expected an unknown tool error"),
    }
}

#[test]
fn chat_tool_failure_is_an_error() {
    let mut c = coordinator().add_tool(info("a"));
    c.chat_begin(vec![ChatMessage::user("go".to_string())]);
    let pending = match c.chat_on_response(Ok(answer("", vec![call("a", "{}")]))) {
        ChatAction::CallTool(p) => p,
        _ => panic!("expected a tool call"),
    };
    match c.chat_on_tool_result(pending, Err("division by zero".to_string())) {
        ChatAction::Finish(Err(CoordinatorError::InternalToolError(e))) => {
            assert_eq!(e, "division by zero")
        }
        _ => panic!("expected a tool error"),
    }
    assert_eq!(c.history().len(), 2);
}

#[test]
fn chat_request_failure_is_an_error() {
    let mut c = coordinator();
    c.chat_begin(vec![ChatMessage::user("go".to_string())]);
    match c.chat_on_response(Err("model not found".to_string())) {
        ChatAction::Finish(Err(CoordinatorError::Request(e))) => assert_eq!(e, "model not found"),
        _ => panic!("expected a request error"),
    }
    assert_eq!(c.history().len(), 1);
}

#[test]
fn stream_does_not_touch_history_when_opening() {
    let c = coordinator();
    let request = c.stream_begin(vec![ChatMessage::user("Tell me about Seattle.".to_string())]);
    assert_eq!(request.messages.len(), 1);
    assert_eq!(request.messages[0].content, "Tell me about Seattle.");
    assert!(c.history().is_empty());
}

#[test]
fn stream_open_failure_ends_with_error() {
    let c = coordinator();
    let step = c.stream_on_open(Err("connection refused".to_string()));
    assert_eq!(events_of(&step), vec!["Error(\"Failed to start stream: connection refused\")"]);
    assert!(matches!(step.action, StreamAction::Stop));
    let step = c.stream_on_open(Ok(()));
    assert!(step.events.is_empty());
    assert!(matches!(step.action, StreamAction::NextChunk));
}

#[test]
fn stream_without_tools_gives_content_then_done() {
    let c = coordinator();
    let step = c.stream_on_chunk(Some(Ok(answer("Seattle is", vec![]))));
    assert_eq!(events_of(&step), vec!["ContentChunk(\"Seattle is\")"]);
    assert!(matches!(step.action, StreamAction::NextChunk));
    let step = c.stream_on_chunk(Some(Ok(answer("", vec![]))));
    assert!(step.events.is_empty());
    assert!(matches!(step.action, StreamAction::NextChunk));
    let step = c.stream_on_chunk(None);
    assert!(matches!(step.events.last(), Some(CoordinatorStreamEvent::Done)));
    assert_eq!(step.events.len(), 1);
    assert!(matches!(step.action, StreamAction::Stop));
}

#[test]
fn stream_chunk_failure_ends_with_error() {
    let c = coordinator();
    let step = c.stream_on_chunk(Some(Err(())));
    assert_eq!(events_of(&step), vec!["Error(\"Stream error occurred\")"]);
    assert!(matches!(step.action, StreamAction::Stop));
}

#[test]
fn stream_runs_tools_and_records_results() {
    let mut c = coordinator().add_tool(info("get_weather_test")).add_tool(info("calculate_test"));
    let step = c.stream_on_chunk(Some(Ok(answer(
        "Checking",
        vec![call("nope", "{}"), call("get_weather_test", "{\"city\":\"Portland\"}"), call("calculate_test", "{}")],
    ))));
    assert_eq!(
        events_of(&step),
        vec![
            "ContentChunk(\"Checking\")",
            "ToolCallStarted { name: \"nope\", args: \"{}\" }",
            "Error(\"Unknown tool: nope\")",
            "ToolCallStarted { name: \"get_weather_test\", args: \"{\\\"city\\\":\\\"Portland\\\"}\" }",
        ]
    );
    let pending = match step.action {
        StreamAction::CallTool(p) => p,
        _ => panic!("expected a tool call"),
    };
    assert_eq!(pending.tool(), 0);
    assert_eq!(pending.name(), "get_weather_test");

    let step = c.stream_on_tool_result(pending, Ok("sunny".to_string()));
    assert_eq!(
        events_of(&step),
        vec![
            "ToolCallCompleted { name: \"get_weather_test\", result: \"sunny\" }",
            "ToolCallStarted { name: \"calculate_test\", args: \"{}\" }",
        ]
    );
    assert_eq!(c.history().len(), 1);
    assert_eq!(c.history()[0].role, MessageRole::Tool);
    assert_eq!(c.history()[0].content, "sunny");
    assert_eq!(c.history()[0].tool_name.as_deref(), Some("get_weather_test"));
    let pending = match step.action {
        StreamAction::CallTool(p) => p,
        _ => panic!("expected a second tool call"),
    };
    assert_eq!(pending.tool(), 1);

    let step = c.stream_on_tool_result(pending, Err("bad expression".to_string()));
    assert_eq!(events_of(&step), vec!["Error(\"Tool execution failed: bad expression\")"]);
    assert!(matches!(step.action, StreamAction::NextChunk));
    assert_eq!(c.history().len(), 1);
}

#[test]
fn history_store_pushes_and_copies() {
    let mut h: Vec<ChatMessage> = vec![];
    ChatHistory::push(&mut h, ChatMessage::system("be brief".to_string()));
    ChatHistory::push(&mut h, ChatMessage::user("hi".to_string()));
    let copy = ChatHistory::messages(&h);
    assert_eq!(copy.len(), 2);
    assert_eq!(copy[0].role, MessageRole::System);
    assert_eq!(copy[1].content, "hi");
}
