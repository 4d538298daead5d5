# nexus_tool

Verified core of a Nexus tool that runs inside a Trusted Execution Environment
and returns a hardware attestation with every answer.

- `src/` — the library, verified with Verus:
  - `digest`: `sha256:<hex>` digests (SHA-256 from `sha2`, hex from `hex`).
  - `json`: JSON string literals and parsing (through `serde_json`), decimal numbers.
  - `common`: the answers of the HTTP operations, the attestation user data
    that binds input and output digests, and the answer envelopes.
  - `walrus`: the answers of the Walrus storage operations (upload, read,
    verify) for each outcome of the storage request.
  - `log_buffer`, `log_line`: the ring buffer of recent log lines and their format.
  - `clock`: the enclave's wall clock.
- `tests/` — tests on concrete values.
- `app/` — the HTTP server (axum), the enclave attestation device, the Walrus
  network client and the tracing layer; it hands the library plain values.
