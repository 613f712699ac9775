# govail_mcp

An MCP (Model Context Protocol) server foundation for GoVail: standard context
contracts, a tool registry and JSON-RPC routing, GRC/DLP/memory/runtime tools,
and a developer-delivery workflow that binds human approval to an exact commit
before anything is pushed.

The logic is written in Verus and proved against its contracts.

## Layout

- `src/` — the verified library.
  - `json.rs`, `text.rs` — a JSON value model with a mathematical view, and
    string helpers used by the contracts.
  - `contracts.rs` — context envelopes, provenance, capability metadata and
    error codes.
  - `rpc.rs`, `mcp/`, `sdk.rs`, `server.rs` — JSON-RPC messages, the tool
    registry, the server builder and request routing.
  - `tools/` — tool descriptors, schemas, argument validation and reports
    (evidence bundles, control mapping, DLP scans, context search, jobs),
    and the guardrail policies.
  - `client.rs` — request bodies, URLs and response handling for the
    services the tools talk to.
  - `cli.rs` — command-line parsing.
  - `developer/` — the delivery workflow: inspection, proposals, signed
    approval receipts, commit and push steps, each a state transition whose
    contract says exactly when it may proceed.
  - `ambient.rs` — clock and identifier sources, behind trusted wrappers.
- `app/` — the executable around the library: HTTP/SSE and stdio serving,
  HTTP and database clients, git and file-system effects, configuration.
- `tests/` — tests run against the compiled library.
