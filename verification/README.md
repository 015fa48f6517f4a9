# build_actor

A build actor for the Theater runtime, with its logic verified by Verus.

Given the hash of a filesystem in a content store, the actor extracts the
files to the local filesystem, runs `cargo component build` through nix,
finds the WebAssembly module it produced, stores it, and reports the build
output; on a channel it also streams numbered progress events.

## Layout

- `src/` is the verified library.
  - `state.rs`: the build state, status and output.
  - `filesystem/`: the content store model (`models.rs`), directory listing
    and file reading (`reader.rs`), extraction (`extractor.rs`), and the
    laws that tie them to a model of the store and of the host (`laws.rs`,
    `extraction_laws.rs`).
  - `builder/`: the build execution (`execution.rs`), the build pipeline
    and `BuildProcess` (`process.rs`), the result message (`output.rs`), and
    whole runs of an execution and of a build over a model of the host
    (`laws.rs`).
  - `messaging/`: a JSON value type, stream events, the command handler.
  - `actor.rs`: the channel protocol (open, build request, close) and the
    sequencing of streamed events.
  - `text.rs`, `error.rs`: string helpers and the error type.
- `app/` is the unverified shell: the host interface, serde conversions,
  and the drivers that answer the library's requests with host calls.
- `tests/` runs the library on concrete values.

Every operation that needs the host (the content store, the local
filesystem, running a command, sending a message) is a request that a
library state machine hands out; the driver in `app/` performs it and
hands the outcome back. So each decision the actor makes is a verified
transition with an exact specification.
