# escrow

The rules of a chess-match escrow contract on Soroban, verified with Verus.

Players stake a token on a game. The stakes are held until an oracle reports the result and
the dispute window is over; then the winner is paid. Matches that never start can be
cancelled, and matches that are never decided time out.

- `src/` is the verified library. `rules.rs` states every call, `contract.rs` implements it,
  `ledger.rs` models the contract under any sequence of calls, and `laws.rs` proves what holds
  of it: the books balance, terminal matches stay, no stake is stuck.
- `app/` is the contract on the host. It loads storage into plain values, demands the
  authorizations that the library asks for and performs the effects that it plans.
- `tests/` runs the library against a small in-memory host.

What is trusted is in `src/host.rs`: how the host's strings are read and its vectors filled.
