# soroban_rental

A rental protocol for on-chain assets, verified with Verus. An owner lists
an asset with a fee per period; a renter pays for a number of periods and
receives a credential that is valid until it expires; the platform takes
2.5% of the fee at once and the owner's proceeds wait in escrow until the
rental expires (all to the owner) or the renter ends it early (split pro
rata between owner and renter). Delisting a rental that has ended settles it
as expiry would, releasing the escrow to the owner.

- `src/` is the verified library:
  - `types.rs`: addresses, listings, credentials, transfers, errors.
  - `fees.rs`: the fee arithmetic.
  - `rules.rs`: each operation as a decision on the stored entries it
    reads, giving the entries to store and the token transfers to make.
  - `keyed.rs`: sequences of keyed entries viewed as maps.
  - `contract.rs`: the whole contract state with the operations and the
    invariant every reachable state keeps.
  - `laws.rs`: properties spanning operations (over any run of calls, each
    rental's escrow is paid in once and paid out once; credentials are valid
    exactly during the rental; quotes match charges).
- `app/` is the Soroban contract: it authenticates callers, reads and writes
  contract storage, reads the ledger time and makes the token transfers that
  the rules decide.
- `tests/` runs the contract's scenarios against the library.
