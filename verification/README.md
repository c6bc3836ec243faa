# escrow_contract

An escrow contract for the Soroban host, with its rules written and proved in
Verus. A client locks tokens for a freelancer, who is paid milestone by
milestone; around that stand approval policies, timelocks, payment schedules,
disputes, cancellations with slashes, platform fees and storage rent.

## How it is laid out

- `src/` is the verified library. `Ledger` holds the contract's configuration,
  its entries and the effects that a request asks of the host. Each request is a
  function of `EscrowContract` on a `&mut Ledger`. Its contract names a spec
  function on `LedgerView`, which gives the state after the request and its
  answer, or the error. A refused request changes nothing.
- `src/laws.rs`, `src/payouts.rs`, `src/endings.rs`, `src/solvency.rs`,
  `src/slashes.rs`, `src/funds.rs`, `src/access.rs`, `src/listing.rs`,
  `src/orders.rs` and `src/sound.rs` state what holds of the requests as a whole:
  what is refused when, what comes before a payment, what ends a schedule, that an
  escrow holds what its milestones are still owed, what a reversed slash undoes,
  that the tokens that the contract holds follow its books, who has to sign for
  what, where an escrow is listed, what does not depend on an order, and what
  every request keeps.
- `src/host.rs` holds what is taken on trust: the calls into `soroban_sdk::Vec`.
- `tests/` runs the library on concrete values.
- `app/` is the contract on its host. It reads the entries that a request
  concerns, calls the library, writes the entries back and performs the effects
  in order: signatures, transfers, events.

## Addresses and texts

The library knows an address by a number. `app/` keeps the register of them. A
32-byte hash is a pair of 128-bit numbers, and a text is its bytes.
