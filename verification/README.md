# codex_zcode

Decision logic of a host that drives ZCode, an external coding agent, written in
Rust and verified with Verus.

The host keeps one `app-server --stdio` child per thread and speaks a JSON line
protocol with it. This library holds everything that is decided on the way: how
frames are routed and callbacks answered, which requests are retried, how a
session is picked up or created, how the events of a turn become a response
stream, how a mirrored goal loop ends, which permissions are granted, and how
the tools that run headless tasks or search the web shape their input and
output. It performs no I/O.

- `src/`: the library. Contracts are stated over ghost models (`JsonModel`,
  `TurnModel`, `StateModel` and the like); public proof functions named `law_*`
  state what holds across functions.
- `tests/`: tests that run the compiled library.
- `app/`: the host around it: processes, pipes, files, environment and HTTP.

What is taken on trust is marked `#[verifier::external_body]` and documented in
place: reading and writing JSON (`json`), random identifiers (`ids`) and lossy
UTF-8 decoding (`zcode_tools`).
