//! Chat coordination for an Ollama-style chat service with tool calling.
//!
//! The library holds the decisions of a coordinator: how a chat request is
//! assembled from the coordinator's settings, how tool calls in a model's
//! response are dispatched to registered tools, what is recorded in the chat
//! history, and which events a streaming chat emits.  The network traffic and
//! the tools themselves run outside; each decision function takes what came
//! back from that work and says what to do next.
mod chat;
mod coordinator;
mod history;
mod stream;
mod types;

pub use chat::{
    after_round_begins, lemma_each_tool_call_runs, lemma_round_request_settings,
    lemma_round_sends_history, lemma_tool_answer_unlocks_format, lemma_tool_calls_never_end_chat,
    next_after_calls, round_request, ChatAction, ChatActionView, CoordinatorError, ErrorView,
    PendingToolCall, PendingView,
};
pub use coordinator::{
    answers_to, format_applies, lemma_format_rule, lemma_request_carries_messages,
    lemma_tool_index_meaning, no_tool_named, lemma_latest_tool_answers, lemma_tool_index, request_for,
    tool_index, Coordinator, CoordinatorView,
};
pub use history::ChatHistory;
pub use stream::{
    calls_dealt_with, chunk_failed_text, chunk_step, lemma_chunk_passes_text_then_calls,
    lemma_dispatch_deals_with_calls, lemma_stream_end_events,
    lemma_tool_result_continues_with_next_call, chunk_view, content_nonempty, dispatch_action,
    dispatch_events, ends_properly, is_terminal, lemma_dispatch_shape, lemma_stream_content,
    lemma_stream_ends_with_done_or_error, lemma_tool_call_concluded, open_failed_text, open_step,
    tool_failed_text, tool_result_step, unknown_tool_text, CoordinatorStreamEvent, EventView,
    PendingStreamTool, PendingStreamView, StreamAction, StreamActionView, StreamStep,
    StreamStepView,
};
pub use types::{
    clone_opt_string, clone_tool_calls, clone_tool_infos, tool_message_view, ChatMessage,
    ChatMessageRequest, ChatMessageResponse, FormatType, FormatView, KeepAlive, MessageRole,
    MessageView, ModelOptions, OptionSetting, RequestView, ResponseView, TimeUnit, ToolCall,
    ToolCallFunction, ToolCallView, ToolInfo, ToolInfoView,
};
