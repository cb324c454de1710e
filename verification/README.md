# channel_events

What a gateway decides when a chat channel (Telegram, Slack, ...) delivers a message, as a
verified library, and the asynchronous code that carries the decisions out.

- `src/` is the library. Each function states in its contract what it returns; `laws.rs`,
  `script.rs` and the ends of the other modules state what holds of the library as a whole.
- `tests/` runs the library on concrete values.
- `app/` holds the services' interfaces, the loops that carry out the typing indicator and the
  actions of a dispatch, and the sink that channels hand their events to.

JSON documents are `serde_json` values. `src/json.rs` says what the library takes the
operations on them to do.
