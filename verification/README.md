# mock_amm

A test pool that swaps wPi for the network's USDC at a fixed rate, as a
verified library and the contract around it.

- `src/pool.rs` holds the entry points. Each is a pure function from the
  arguments of an invocation and the host's replies so far to the next step:
  a call to the host, a return, or a trap.
- `src/runs.rs` says what each invocation does from start to end. The entry
  points are proved to take exactly those steps.
- `src/pricing.rs` is the price, with its rounding.
- `src/world.rs` and `src/outcomes.rs` say what an invocation does to a ledger,
  and `src/laws.rs` what holds of the pool as a whole: who can move what, what a
  refusal leaves behind, that a withdrawal undoes a deposit.
- `app/` is the Soroban contract. It performs the calls and hands the replies
  back. A build takes the address of the network's USDC contract from
  `USDC_CONTRACT`.
- `tests/contract.rs` runs the pool on a Soroban host between two Stellar Asset
  Contracts; `tests/steps.rs` goes through its decisions one reply at a time.
