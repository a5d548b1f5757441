# gig_basic_contract

Escrow rules of a gig marketplace program, verified with Verus.

- `src/` is the verified library. Each instruction is a step from the plain
  values of the accounts it reads (keys, contract state, balances) to the
  accounts it writes and the token transfers it asks for:
  `instructions/start_contract.rs`, `start_contract_on_buyer.rs`,
  `release_funds.rs`, `job_listing_with_feature_employer.rs`,
  `job_listing_with_one_fee_employer.rs`. `laws.rs` proves properties that
  span the steps (a release never pays out more than the escrow holds, a
  completed contract pays out once, only the buyer releases, a freshly started
  contract cannot be released, featured fees grow with the period).
- `app/` is the on-chain program around it: account validation, the clock,
  and the token-program calls that carry out the transfers a step returns.
- `tests/` runs the steps on concrete accounts.
