# libnfs

An asynchronous NFS client on top of the C library libnfs. Its rules are a
library that Verus verifies; what waits, and what calls libnfs and the operating
system, is ordinary Rust around it.

- `src/`: the library. It computes on plain values: each operation says what is
  to be done, is told what came of it, and says what that means. The contracts
  state this exactly, with one limit: of a channel they say what is handed to it,
  and what follows from its answer, but not what it holds, which is shared with
  other threads. The functions named `law_..` state what holds of a whole mount,
  a whole round of the driver thread or the whole walk of a tree.
- `tests/`: the library run on concrete values.
- `app/`: the client on tokio, and the tools `cat` and `ls`.

The library is for Linux: the constants of the operating system that it uses are
taken from the crate `libc`, and the contracts give them the values that they have
there.
