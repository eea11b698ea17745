# smartdrop

Verified models of the SmartDrop Soroban contracts, written in Verus.

- `src/` is the verified library. Each contract is a plain state value with
  operations from (state, arguments, current ledger) to (next state, effects):
  token transfers, events and deployments that the host carries out.
  - `farming_math`: effective stake, credit accrual and checkpoints.
  - `farming_pool`: the farming pool (staking with boosts, time-locked
    positions, pause and emergency withdrawal).
  - `vesting`: linear vesting with a cliff and revocation.
  - `factory`: the pool registry, pool creation, paging and upgrades.
  - `*_laws`: properties that relate the operations, proved over the same
    specification functions that the operations' contracts use.
- `tests/` exercises the library with concrete scenarios.
- `app/` holds the Soroban contracts themselves: they load storage into the
  library's state, demand authorisations, call the library, write the state
  back and perform the effects.

Operations that abort the contract invocation on some inputs (a failed
assertion or an arithmetic overflow) exclude those inputs by `requires`; each
such operation has a `check_*` companion that reports the reason, which the
contracts turn into the abort.
