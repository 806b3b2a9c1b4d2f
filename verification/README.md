# private_perps

Confidential perpetual futures on Solana with Arcium: positions, order sizes,
leverage and liquidation checks are computed over encrypted data, and only the final
profit and loss is revealed, to the trader alone.

- `src/` is the verified library. `circuits.rs` holds the arithmetic of the three
  confidential computations (open, liquidation check, close) on plaintext values;
  `program.rs` holds the program's decisions: which requests it accepts, which
  arguments it queues for a computation, and how each computation's callback updates
  the position account. `circuit_laws.rs` and `program_laws.rs` state and prove what
  holds of them for every input. `arcium.rs` holds the trusted calls into
  `arcium-anchor`.
- `app/` is the Anchor program and the encrypted-instruction edge: accounts,
  cross-program calls, signature verification of computation outputs, the clock and
  events, all delegating their decisions to the library.
- `tests/` exercises the library on concrete values.
