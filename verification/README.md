# rustipc

Ports, channels and handles of a small inter-process communication layer, written in Verus.

`src/` is the library. Verus proves its contracts, but for two that are trusted: those of
`namespace_oid` and `new_v5` in `identity`, which call the `uuid` crate.

- `path` copies NUL-terminated paths out of a caller's memory into a fixed buffer.
- `handle` counts the references to kernel objects.
- `context` finds or creates the user context of a thread.
- `identity` derives the identities of the endpoints, with the `uuid` crate.
- `flags`, `error` and `decimal` hold flag words, errors and their texts.
- `kernel` is the kernel's side, whose services all succeed. A log, in proofs only, holds the
  calls of its services.
- `port`, `accept` and `connect` are the three requests. In each of them a step type says what
  follows whatever a service of the kernel returns.

`app/` is a program that creates a port, accepts a connection and connects.
