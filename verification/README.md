# sentora

The verified core of the Sentora vault and escrow Soroban contracts.

- `src/` is the library, checked by Verus. It holds the contracts' storage
  entries as plain values and every decision the contracts take:
  - `vault`: deposits and withdrawals, the per-depositor records, the total
    principal, deposit identifiers, pausing and admin changes, with the law
    that the total principal stays the sum of all records (`vault::ledger`).
  - `escrow`: reward roots per vault and epoch, Merkle proofs of reward
    leaves, the claim bitset, committed rewards, the admin's withdrawals and
    the sweeping of expired epochs.
  - `sdk`: the trusted calls into `soroban_sdk` (SHA-256 and XDR encoding).
  - `xdr`: the byte layout of a reward leaf's XDR encoding, and the proof
    that distinct leaves encode differently.
- `app/` is the Soroban shell: the `#[contract]` types that read and write
  the ledger, check authorization, move tokens and publish events, calling the
  library for each decision.
- `tests/` exercise the library, the hashing through a real Soroban
  environment.
