# mollusk_fixture

Instruction-context fixtures for a Solana program test harness, verified
with Verus.

- `src/instr_account.rs`: instruction accounts in fixture form and runtime
  form, the conversions between them, and the bytes they add to a
  fixture's Keccak-256 fingerprint.
- `src/context.rs`: the instruction context in fixture form (`ProtoContext`)
  and runtime form (`Context`): decoding (program id, resolution of
  instruction accounts by position, feature-dependent default compute
  budget, defaults for missing parts), encoding (addresses named by their
  first position), the fingerprint of the context's own fields, and the
  round-trip laws.
- `src/runtime.rs`, `src/keccak.rs`: the outside types and calls the
  library relies on (addresses, feature sets, compute budgets, accounts,
  the Keccak hasher), with the contracts that the proofs use.
- `app/lib.rs`: conversions between the library's plain account
  descriptions and the runtime's own types.
