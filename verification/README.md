# bsuite-core

The shared core of the bsuite command-line binaries, written in Verus.

- `src/` is the verified library:
  - `adapter_host_bind`: CMS hosts and their stable names, the host
    invocation context, the binder that resolves a host and binds it to its
    adapter package, and the decisions taken on a decoded context.
  - `prompt_resolver`: the corpus index and the resolver that answers a
    routing key with the directive of its first corpus entry.
  - `manifest_overlay`: operator overrides and how they are merged into a
    binary's defaults.
  - `transcript_writer`: the transcript root, binary-name safety, the
    retention and naming rules of the transcript store, record framing, and
    the daily manifest with its SHA-256 hashes.
- `app/` is the I/O edge: environment reading, JSON encoding and decoding,
  and the file-system transcript store that drives the library's rules.
- `tests/` exercises the library through its public interface.

Calls into `sha2`, `ulid`, `chrono` and `std::path` are made from the
library through small trusted wrappers whose contracts are documented next
to them.
