# iterm2-client

Client logic for the iTerm2 scripting API (WebSocket + Protobuf), verified
with Verus.

- `src/` — the verified library:
  - `text` — decimal rendering and UTF-8 byte length used in messages;
  - `error` — the error type, its messages, truncation of server messages;
  - `validate` — identifier, vector, text and JSON checks;
  - `response` — the reply model (the submessages the client reads);
  - `session`, `tab` — handles and how each reply is read;
  - `connection` — request identifiers, the bounded table of waiting
    requests, how a call ends, the dispatcher's decisions;
  - `notification` — what raw and typed notification streams do per read.
- `tests/` — tests of the library.
- `app/` — the async client around it (tokio, tungstenite, prost): the
  connection task, notification streams, and the async operations on
  sessions and tabs. It uses the generated protobuf module and the request
  builders, authentication and transport modules of the client, which are
  not part of this tree.
