# minimax_api

A MiniMax API toolkit: an MCP server and a command-line tool for speech, voices,
video, images, music, chat, search and files, plus subagents (LLM agents with their own
system prompt that call the tools, and each other, in an agent loop).

The library in `src/` is written in Verus and verified:

- `subagent/` — subagent definitions and their registry (load, lookup, listing), the
  tool catalog and whitelists, and the agent loop as a state machine whose laws (bounded
  iterations, well-formed conversation, ordered tool records) are proved.
- `dispatch.rs` — routing a tool call by name; subagent lookup and whitelist override.
- `providers.rs` — which provider serves each capability (`provider.toml`), request
  defaults, and how API answers become results (audio decoding, task polling decisions,
  archive extraction).
- `handlers.rs` — the texts the tools answer with.
- `client.rs`, `ws.rs` — endpoints, response checks, polling and streaming decisions.
- `cli.rs` — reading command-line arguments and options.
- `text.rs`, `lexorder.rs`, `utils.rs`, `jsontext.rs` — strings, ordering, hex/Base64,
  file names, MIME types and JSON members.

`app/` is the program around it: HTTP and WebSocket I/O, JSON (de)serialization, the MCP
server over stdio, and the command-line tool.
