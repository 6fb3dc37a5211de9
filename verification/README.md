# nft_marketplace

An NFT marketplace program for Solana, written with Anchor, whose logic is
verified with Verus.

- `src/` is the verified library. For each instruction (`initialize`, `list`,
  `buy`, `buy_with_token`, `make_offer`, `accept_offer`, `cancel_offer`) it
  checks the accounts against the instruction's constraints, in the order the
  framework checks them, and computes what the instruction does: the data it
  stores and the transfers and closes it asks of the runtime, in order.
  The checks covered are: signatures; the programs owning the program's own
  accounts, the wallet accounts, the mints and the token accounts; the
  buyer's funds for a purchase; the program accounts; the
  seeds of every program-derived account; the associated token accounts and
  the owner, mint and token program of those created where needed; the stored
  maker, buyer and mint; `close` destinations; distinct writable accounts.
  Left to the runtime and not modelled: account discriminators and data
  layout, writable flags, rent, executable flags, whether an account to be
  created already exists, and the transfers' own outcomes.
  - `key`, `pda`, `seeds`, `ids`: addresses, program-derived addresses and the
    seeds each account is derived from.
  - `constraints`, `accounts`: the account constraints (signers, owners,
    seeds, associated token accounts, `has_one`, mint, `close`, duplicates,
    program accounts).
  - `contexts`, `program`: the accounts of each instruction, its checks and its
    handler; the instructions end to end.
  - `fee`, `state`, `action`, `error`: the fee split, the stored state, the
    actions handed to the runtime, the errors.
  - `laws`: properties that span instructions, proved.
- `delist` is not part of the program here: its accounts and its handler are
  not available, so neither the library nor `app/` has it.
- `app/` is the on-chain program around the library: the Anchor account
  structs and entry points, and the cross-program calls that carry out the
  library's actions.
- `tests/` runs the library on concrete accounts, deriving addresses with the
  real derivation.
