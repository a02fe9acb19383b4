# ilockmvp

Verified logic of the Interlock Network token contracts, written in Verus.

- `src/ilockmvp.rs`: the ILOCK PSP22 token whose pool accounting sits in a
  `TokenPools` record (twelve vesting pools, circulating supply, proceeds):
  transfers, burns, vesting payouts, Interlocker rewards, ports and sockets.
- `src/ilockmvp_pools.rs`: the variant that keeps proceeds and circulating supply
  as two extra pools, forbids transfers by the owner and pays stakeholders by
  writing balances directly.
- `src/psp22.rs`, `src/table.rs`: the token ledger and the finite maps it is
  built on. The maps are kept in `Table` values rather than in ink!'s
  `Mapping`, whose entries live in contract storage under a storage key (two
  mappings with the same key share them), so that what a map holds is a
  function of the value the contracts speak of; `src/storage.rs`: vesting, rewards and ownership records and the
  payout rule; `src/ports.rs`, `src/events.rs`, `src/errors.rs`, `src/text.rs`:
  application ports, events, errors and their text.
- `src/rewards_data.rs`: the rewards-data storage contract.
- `src/global.rs`: the update of the global state of the Solana program, with
  its flags packed into a `bit_vec::BitVec`.
- `app/`: the glue that reads the caller, the time and code hashes from the
  ink! environment and encodes events for the chain.

Every public function states in its contract what it returns and how it changes
the state; the laws (`law_*` proof functions) state what holds across calls.
