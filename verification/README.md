# tax_bucket

Verified tax accounting for the distributions of a tokenised offering.

A holder's cost basis is recorded, in place of any recorded before. Each
distribution returns capital as long as basis remains and counts as capital
gains beyond it; the buckets are added up per holder, offering and fiscal year.
Events let off-chain readers
reconstruct the tax lots.

- `src/` is the library, verified with Verus.
  - `calendar.rs`: Gregorian years and months of Unix timestamps, fiscal years.
  - `keys.rs`, `entries.rs`, `ledger.rs`: identifiers, storage entries, and the
    ledger that accounting works on.
  - `events.rs`: what a distribution publishes.
  - `tax_bucket.rs`: the accounting.
  - `laws.rs`: what holds across functions and across distributions.
- `app/` runs the library on a Soroban ledger: storage and events go through
  `soroban_sdk` there.
- `tests/` runs the library on examples.
