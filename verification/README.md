# agui_rs

A verified library for the AG-UI protocol: the events an agent streams to a client, and the
client-side pipeline that expands chunk events, checks the order of a run's events, and folds
them into the conversation's messages and shared state.

Layout:

- `src/` — the library, written in Verus. Every function carries a contract, and the laws of
  the protocol (what the verifier rejects, what chunk expansion and the tool-call filter never
  emit, that protobuf encoding and decoding give an event back, that a failed event changes
  nothing) are proof functions next to the code they speak of.
  - `types`, `events`, `factories`, `capabilities`: the protocol's data.
  - `verify`, `chunks`, `apply`: the event pipeline.
  - `middleware`: tool-call filtering and compatibility with older protocol versions.
  - `agent`, `id_map`, `hook_buffers`, `interrupts`: the bookkeeping of a runner between and
    during runs, the streamed text that a run's hooks are shown, and the check that a run
    after interrupts answers each of them.
  - `proto`, `proto_convert`: the protobuf schema and the mapping to and from it.
  - `encoder`, `transform`, `media`, `http`: content negotiation, framing and HTTP outcomes.
  - `json`, `clock`, `text`, `error`: JSON values and the clock behind small trusted
    wrappers, string helpers, and the error type.
- `tests/` — tests of the library.
- `app/` — the async and I/O side: cancellation, the middleware chain, the runner loop and
  its subscriber hooks, protobuf wire encoding with `prost`, the capability declarations that
  hold floating-point limits, the environment and standard error.
