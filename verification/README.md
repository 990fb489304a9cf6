# odi

ODI (Organized Distributed Issues) is a Git-like, offline-first issue tracker. This
crate is its library, written in Verus: every function states what it does in
`requires`/`ensures` and is proved to do it.

Layout:

- `src/` — the verified library.
  - Entities and their rules: `issue`, `project`, `label`, `workspace`, `user`, `team`,
    `remote`, `sync` (conflicts, results, options, statistics), `queries`.
  - Repository logic (filters, paging, search, partial updates, reference names):
    `records`.
  - Configuration: `config` (merging, validation), `settings` (dotted keys).
  - Content-addressed storage (SHA-256 names, gzip framing, lock decisions): `storage`.
  - Remotes (URLs, credentials, tokens, `ssh`/`scp` invocations, connecting): `net`.
  - The command line as values and what each command decides: `cli`, `commands`,
    `transfer` (push and pull), `fsck`, `context`.
  - Shared text helpers and the trusted wrappers around `chrono`, `uuid`: `text`,
    `clock`, `ids`; errors: `errors`.
- `tests/` — tests run against the compiled library.
- `app/` — the `odi` program: argument parsing, files, processes, HTTP, printing.
