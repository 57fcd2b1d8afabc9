# memecoin

A memecoin launchpad's rules, proved with Verus.

- `src/` is the library. Each instruction of the launchpad is a function
  from the data of the accounts it is handed to the changes it makes and the
  transfers it orders (`src/instructions/`); `src/state.rs` holds the
  accounts and the pricing of the funding tiers, `src/constants.rs` the
  supply and fixed fees, `src/fees.rs` the basis-point arithmetic, `src/seeds.rs` the
  seeds of the configuration accounts, and `src/vanity.rs` the search for
  addresses whose text ends in "meme". Addresses are parsed, printed and
  derived with `solana_program` and `bs58` behind a few trusted wrappers in
  `src/pubkey.rs` and `src/vanity.rs`.
- `app/` is the on-chain program built with Anchor, which reads the accounts,
  calls the library and carries out the token and lamport transfers, and the
  off-chain address search, which draws random seeds on six threads and
  records the hits in MySQL.
- `tests/` runs the library on concrete accounts.
