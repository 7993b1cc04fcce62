# Kora

Invoice financing as five contracts: an SME lists an invoice at a discount,
investors fund it, a pool takes the repayments and pays the investors out.

- `src/access_control`: the admin, roles and the protocol's pause flag
- `src/marketplace`: listing, funding and cancelling
- `src/financing_pool`: pools, positions, repayment, payout and default
- `src/risk_registry`: verifiers, profiles of SMEs, scores of debtors
- `src/treasury`: the fee rate and withdrawals
- `src/protocol.rs`: what holds across the contracts
- `src/shared`: errors, events, amounts, addresses, storage tables, and the host
  as a contract sees it

A contract is a struct that holds what it stores. An operation takes an
`Invocation`, which knows the ledger's time and the pause flag and collects
what the operation asks of the host: authorizations, storage changes, events and
calls, in order. An operation that fails leaves the struct as it was.

Each contract has two more modules. `model.rs` says what every operation does,
as a function from state to outcome: the result, the new state and the steps
asked for. The operations are verified against it. `laws.rs` states what holds of
the contract as a whole, such as that there is exactly one admin, that a listing
is never overfunded, that every external call of a repayment is made under its
lock, and that paying out the investors of one pool never spends more than was
repaid.

The positions in a pool are kept in the ordered map of the Soroban host. What is
taken for granted of that map stands in `src/financing_pool/positions.rs`;
everything else is proved.

`app/` runs the contracts on a Soroban host: it reads the entries that an
operation names, calls the library and carries out the steps.
