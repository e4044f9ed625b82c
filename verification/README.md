# solar_grid

A pay-as-you-go energy grid on a ledger. Owners register meters, anyone pays for them in a token,
an oracle reports the energy they use, and a meter delivers energy while it is on, paid up and has a
balance or a grace period left. One administrator runs the grid; three to five administrators can
decide on drastic steps together.

## Layout

- `src/` is the library: the whole state of the contract as plain values, and every entry point as a
  function on it, verified with Verus.
  - `values`, `table`, `lists`: addresses, byte strings, clamped amounts, finite maps, lists.
  - `types`, `events`: the records and the published events.
  - `state`: the contract's state, its abstract value `Grid`, and the steps that entry points share.
  - `access`, `registry`, `meters`, `migration`, `payments`, `refunds`, `withdrawals`, `usage`,
    `activation`, `collaborators`, `multisig`: the entry points.
  - `invariants`: what holds of every state the contract can reach, and that every operation keeps
    it.
  - `laws`: what relates several operations.
- `tests/` runs the library.
- `app/` is the Soroban contract: it reads the part of the state that a call touches from the
  ledger's storage, asks the ledger for authorisations, moves tokens, publishes events and writes
  the state back.

## How an entry point is specified

Each has a spec function that says why a call is refused, if it is, checking in the order in which
the contract does, and a spec function for the state afterwards. A refused call leaves the state as
it was, except that a charge over a meter's daily limit is published.

A call that needs an address to authorise it, and lacks that, is answered with the address. A call
that moves tokens is made in steps: the first checks, books and locks the contract, the caller
counts or moves the tokens, and the last step gives the lock back. Until then every other call that
moves tokens is refused.

## Layouts of stored meters

A meter entry that was written in an older layout is read as if it had been migrated, and rewritten
the next time a call that reads it succeeds. Listings, batches and early expiry read the current
layout alone.
