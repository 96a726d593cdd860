# ahjoor_escrow

A verified escrow protocol for token payments on a ledger: a buyer locks funds
for a seller, and the funds are released, refunded, disputed and arbitrated,
split among several sellers or buyers, paid by milestones or schedules,
renewed, insured, and so on. Every operation is proved with Verus against a
mathematical model of the contract state.

## Layout

- `src/state.rs` – the contract state and its model (`ContractView`).
- `src/model.rs`, `src/errors.rs` – records, token movements (`Transfer`),
  allowances (`Approval`) and refusal reasons.
- one module per area of the protocol: `create`, `release`, `dispute`,
  `cancel`, `amend`, `topup`, `milestones`, `bpsms`, `schedule`, `sellers`,
  `multibuyer`, `approvals`, `inspect`, `templates`, `bounty`, `renew`,
  `admin`; each operation has a spec function giving its outcome and an
  executable function proved to meet it.
- `src/laws.rs` – properties across operations (what payouts move in total).
- `src/codes.rs` – the protocol's error-code registry.
- `src/host.rs` – the SHA-256 digest the ledger host computes.
- `app/` – ledger plumbing: performs the token movements and allowances that
  operations return, queries the oracle and the token whitelist contract.

## Conventions

Accounts and tokens are `u64` identifiers; the ledger time and sequence, and
the answers of other contracts, are arguments. A refused operation returns a
`ContractError` and leaves the state unchanged; a successful one returns the
token movements for the ledger to perform.
