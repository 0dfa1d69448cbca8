# aether_matrix

A Matrix bot that answers in rooms with an OpenAI-compatible chat model.

- `src/` is the verified library: per-session chat histories with a bounded
  length (`conversation`), the chat-turn and streaming logic (`ai_service`),
  command parsing, permissions, the handler registry and routing (`command`),
  the decisions on room events and when a streamed reply is shown
  (`event_handler`), the `bot`, `leave`, `ping` and `persona` commands
  (`modules`), the HTML message templates (`ui`), and the character-level
  string operations they use (`text`).
- `app/` is the program around it: configuration, the Matrix client, the model
  client, and the event loop.
