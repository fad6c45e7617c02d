# codex_advisor

The decision logic of a coding agent's strategic advisor, with its contracts and laws proved:

- `src/consultation.rs` — checks of the advisor's configuration, the request
  sent to the advisor model, collection of its feedback, and the state
  machine `Consultation` that orders these steps around the outside work.
- `src/snapshot.rs` — the snapshot of the worker's session given to the advisor.
- `src/tool.rs` — the `consult_advisor` tool: its description, arguments and answer.
- `src/picker.rs` — the chat widget's advisor model picker and effort popup.
- `src/effort.rs`, `src/text.rs` — effort levels and character-level text helpers.
- `app/lib.rs` — the asynchronous plumbing (model catalog, history, response
  stream, cancellation, JSON arguments) that drives the library.
