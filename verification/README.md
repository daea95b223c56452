# infra_utils

Infrastructure helpers for services that talk gRPC, trace GenAI calls with
OpenTelemetry, and read the web (robots.txt, articles, RSS and Atom feeds, pages
through a web driver). The decisions these helpers make are written in Verus and
proved against their contracts; the I/O around them is ordinary Rust.

## Layout

- `src/` — the verified library.
  - `text.rs`, `json.rs`: string helpers and a JSON model with a string-keyed map
    whose keys are always distinct.
  - `grpc.rs`: the raw-bytes codec and TLS choice. `grpc/reflection.rs`: how
    server-reflection replies are resolved into descriptors, the shared descriptor
    cache (always well formed), and the laws that dependency resolution closes
    over all dependencies.
  - `trace/`: span attributes and their builder, the exact attribute list of each
    span, the GenAI tracing traits and their default implementations.
  - `net/`: robots.txt addresses and verdicts, article extraction, Atom feeds
    carried over into RSS channels, web-driver settings, scraped-date reading and
    HTTP client settings.
- Calls into outside crates stand behind small trusted functions in `src/`, each
  with a doc comment saying what its contract claims.
- `tests/` — tests of the library on concrete values.
- `app/` — the asynchronous and networked parts: gRPC connections and the
  reflection client's request loop, OpenTelemetry spans, HTTP and web-driver
  sessions, and serde copies of the library's types.
