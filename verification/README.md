# wasi_runtime

Core logic of a WASI runtime, verified with Verus: operand locations of the single-pass
code generator, the virtual bus and process spawning, the root file system, inode guards,
thread state and checkpoints, runtime settings, the caches of compiled modules and
binaries, the running of spawned binaries, WAPM package lookup and webc package loading,
the WASI options of the `run` command, local socket state, and instance exports.

Layout:

- `src/` — the verified library, checked by Verus against the contracts of its functions
  (the few that only hand a call on to an embedder's own implementation state none). Calls into outside
  crates (`sha2`, `hex`, `weezl`, `shellexpand`, `term_size`, `urlencoding`, `rand`,
  `webc`, `tokio`) sit behind small trusted functions whose contracts are stated in their doc
  comments.
- `tests/` — tests of the library on concrete values.
- `app/` — the host side: traits an embedder implements, disk and network I/O, the
  command line, sockets and thread handles, built on the library.
