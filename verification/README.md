# solana_programs

The decision logic of a set of Anchor programs for Solana, written in Verus
and proved against its contracts:

- a counter that only its creator may change;
- royalties stored in a Token-2022 mint's metadata, a marketplace that lists
  NFTs, splits each sale's price into royalty and payment and records each
  creator's claim;
- transfer hooks that let a transfer through only while it is in progress,
  and an enforcing account that only the marketplace may stamp with the
  slot of a sale;
- an NFT collection built on token groups and members, each new member
  numbered by the group's size, up to its maximum;
- a liquidity pool that holds each asset once.

`src/` is the verified library. Calls into `anchor-lang`, `anchor-spl` and the
SPL interface crates stand behind a few `#[verifier::external_body]` wrappers
in `src/keys.rs` and `src/spl.rs`, whose contracts say what those calls give.

`app/` holds what runs on chain and cannot be verified: the account plumbing,
the cross-program invocations, the sysvars, and the exchange's floating-point
price.

`tests/` runs the library on concrete values, with the real outside crates
linked.
