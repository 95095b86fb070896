# fs_ai

Verified core of the FreeSynergy AI assistant (local LLM engine manager).

- `src/` — the library, verified with Verus:
  - `conversation` — turns, roles and the `ConversationStore` strategy
    (in-memory and file-backed stores);
  - `model` — engine state (`AiModel`), the model catalogue and model ids;
  - `controller` — `AiController`: start/stop decisions, conversation
    history and the chat round trip;
  - `json` — the chat request body and reading the answer out of the
    engine's parsed reply;
  - `clock` — reading the system clock as an RFC 3339 UTC timestamp;
  - `component` — the chat panel's layout;
  - `rest` — REST bodies and the status codes each endpoint answers;
  - `keys` — translation keys.
- `app/` — the runtime shell: engine process (`fs-manager-ai`), HTTP to the
  engine (`reqwest`), the history file (`toml`), the REST server (`axum`,
  `utoipa`) and the desktop component (`fs-render`).
- `tests/` — tests run against the compiled library.
