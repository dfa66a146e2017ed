# trustlend

Verified core of the TrustLend lending protocol on Stellar/Soroban.

- `src/` — the library, verified with Verus:
  - `lending_math`, `lending_laws`: interest, platform / flash-loan /
    rate-switch fees, fee caps and the dynamic liquidation threshold, with
    their laws (overflow freedom within protocol limits, monotonicity,
    fee bounds, the annual-interest identity).
  - `flash_loan`, `loan_accounting`, `loan_lifecycle`: pool accounting of
    flash loans, debt accounting of a loan, and the loan status machine.
  - `access`: accounts, the admin check and the N-of-M multisig pause switch.
  - `escrow`, `default_management`, `vault`: the decision logic of the three
    contracts. Each operation either refuses with a `ContractError` and
    changes nothing, or updates the ledger state and lists the token
    transfers and events the host must carry out.
- `tests/` — executable tests of the library.
- `app/` — the Soroban contracts: they map addresses to accounts, load and
  store the state, call the library, and perform transfers and events.
