# subspace_node

The decisions of the Subspace node binary, as a Verus-verified library.

- `src/ss58.rs`: the SS58 address format a chain specification asks for, its
  checks, and handing it to `sp_core`'s setter of the process default
  (the handle `Ss58DefaultHandle` records what was handed over).
- `src/dsn.rs`: DSN configuration and the indexing and announcement of the
  pieces of archived segments, with laws on piece indexes.
- `src/node.rs`: command line decisions (peer defaults, which commands apply
  the chain's address format, benchmarks, the secondary chain, purging the
  data of earlier chains).
- `src/error.rs`: the node's error type.
- `app/`: the program that wires these decisions to the Substrate services.
