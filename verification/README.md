# orivex

The Orivex learning-and-rewards contracts as verified state machines: a course
registry, soulbound badges, a reward pool, a stake vault, badge-weighted
governance and a quest engine.

## Layout

- `src/` — the library, verified with Verus. Each contract is a value holding
  its storage as plain data, with an abstract view (`Map`s, `Seq`s) that every
  contract is stated over. Entry points take the authenticated caller, the
  ledger time and the answers of the queries they need from other contracts;
  they return the token transfers and cross-contract calls the host must make
  (`host::Call`) and append their events to the contract's event log.
  - `common`, `errors`, `auth`, `two_step`, `host`, `storage`: shared types,
    the error messages, the admin/pause checks, the two-step role hand-over,
    the host calls, and saving/loading a contract's storage as entries.
  - `badge_nft`, `course_registry`, `governance`, `reward_pool`,
    `stake_vault`, `quest_engine`, `hello`: the contracts. The `*_settled`
    and `*_with_*` entry points compose a contract with the contracts it
    calls, so that what crosses contract boundaries is proved too.
  - The `lemma_*` proof functions state the laws of the contracts (one badge
    per course, votes counted once, finality of executed and cancelled
    proposals, the 85/15 reward split, the lock period, and so on).
- `tests/` — the scenarios, run against the library with an in-memory token
  ledger and host.
- `app/` — the contracts deployed on Soroban: each entry point authenticates
  its caller, loads the state from instance storage, runs the library's
  transition, stores the result (extending its life on the ledger), performs
  the calls and then publishes the events.
