# ollama_coordinator

A coordinator of chat interactions and tool usage for an Ollama-style chat
service, with its decisions verified.

- `src/types.rs`: messages, tool descriptions, requests and responses, with
  their abstract values.
- `src/history.rs`: the `ChatHistory` store, implemented for vectors.
- `src/coordinator.rs`: the coordinator's settings and builders, the request
  it makes (including when the answer format applies) and tool lookup.
- `src/chat.rs`: a chat with tool calls as a sequence of decisions
  (`chat_begin`, `chat_on_response`, `chat_on_tool_result`).
- `src/stream.rs`: a streamed chat as a sequence of steps, each a list of
  events and an action (`stream_begin`, `stream_on_open`, `stream_on_chunk`,
  `stream_on_tool_result`), and the laws of the event stream.
- `app/lib.rs`: the asynchronous drivers that talk to a chat service and
  call the tools, performing the actions the coordinator decides.
