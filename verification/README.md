# onreapp_fuzz

Stateful invariant fuzzing for the `onreapp` program, with everything that is decided or computed
written and proved in [Verus](https://github.com/verus-lang/verus).

## Layout

    src/    the verified library
    app/    the fuzz target: encodes what the library plans, sends it, prints the log
    tests/  tests of the library: the accounts are those of a real simulated chain, and a small
            stand-in for the program plays what its instructions do to them

The library decides; the target sends. An action plans a transaction (`Plan`): the call, its
accounts, its signers and what to note once it has succeeded. The target sends it and hands back
what became of it (`OnreappFixture::settle`). Building a world works the same way: `setup` starts
it, `setup_steps` lists what is still to be done, and each step is either built by the library or
sent by the target.

| module | holds |
|--------|-------|
| `bytes`, `text`, `keys`, `ed25519` | words, texts, addresses, the precompile instruction |
| `context`, `token` | the simulated chain, its clock, and the accounts put on it |
| `instruction`, `accounts`, `actions`, `scenarios` | the calls of the program and who plays them |
| `fixture`, `registry`, `setup` | the world, what was seen created in it, and how it is built |
| `check`, `invariants` | which properties are checked, and the properties |
| `handover` | what the fuzzer is told, and the receipts for it |
| `laws`, `check_laws`, `invariant_laws` | what holds of all of it |

## Invariants

| id | property |
|----|----------|
| P-0002 | the redemption vault holds at least the sum of amounts locked by open requests of the main redemption offer |
| P-0003 | `requested_redemptions` equals the sum of `amount` over that offer's open requests |
| P-0004 | while `max_supply` is non-zero, ONyc supply never exceeds it |
| P-0005 | no offer has `token_in_mint == token_out_mint` |
| P-0006 | every live `Offer.fee_basis_points` is at most `MAX_ALLOWED_FEE_BPS` |
| P-0008 | the redemption vault for a transfer-fee `token_in` still covers its open requests |

All are armed. `SCOUT_CHECK_MUTE` silences the ones that are already known, by id; the muting is
announced on stderr as `[SCOUT_CHECK_MUTED]`. `SCOUT_CHECK_ONLY` selects one. With
`SCOUT_CHECK_MODE=observe` and a nonce in `SCOUT_CHECK_RUN`, nothing is recorded and every
evaluation is logged.

## Dependencies

`crucible-test-context` is the simulated chain. `litesvm` stands below it and is named for its
feature `precompiles`: without it no approval could be presented. `solana-clock` gives the type of
the clock that the chain reads and sets.

`ahash`, `anchor-lang`, `blake3`, `js-sys`, `serde_with` and `solana-secp256k1-recover` are called
nowhere. The chain depends on them, and naming them in `Cargo.toml` holds them back to versions that
bring fewer packages of their own.
