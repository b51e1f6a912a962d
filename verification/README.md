# ganzhe

Verified building blocks of a small async runtime with local and
cross-thread schedulers, an actor layer on top of it, and pieces of an NBD
server.

- `src/` is the verified library (Verus):
  - `io`: `BytesVec`, a byte buffer kept as a list of shared `Bytes` chunks,
    with splitting, truncating, slicing, merging and iteration; `buffers`
    states what it relies on from the `bytes` and `smallvec` crates.
  - `sync`: `Stat`, a watched value that hands back its waiters' wakers to be
    woken when it changes.
  - `runtime`: the builder's thread counts and the choice of a local
    scheduler.
  - `actor`: the actor states and the decisions of an actor's message loop.
  - `image`: an in-memory disk image.
  - `endian`, `proto`: integers in a fixed byte order and the old-style NBD
    negotiation header.
- `app/` holds what runs around it: the tokio runtimes and threads, futures,
  channels and the async traits.
- `tests/` exercises the library.
