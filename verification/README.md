# owncode

The decision logic of a terminal coding agent, verified with Verus.

- `src/` is the library. `session` holds the protocol between the agent
  backend and its front ends; `backend::llm` the chat records, the
  accumulation of a streamed reply and the agent loop's turn bookkeeping;
  `tools` the built-in tools' names, schemas and result texts; `app` the chat
  front end's state (transcript, scrolling, key handling); `ui` the screen
  geometry and display model; `cli` prompt mode; `config` the configuration
  chosen by the environment; `text` small verified string utilities.
- `app/` is the program around it: the terminal, the HTTP client, the
  spawned agent loop, the file system and the shell, and the serde copies of
  the wire records.
- `tests/` exercises the library on concrete values.
