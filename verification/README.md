# Alpha Protocol program core, verified

The decision logic of the Alpha Protocol Solana program, written in Verus:
every instruction's checks and state changes are executable functions whose
`requires`/`ensures` state exactly which inputs succeed, which error each
rejected input gets, and what the accounts hold afterwards.

## Layout

- `src/` — the verified library.
  - `state.rs`, `error.rs`, `constants.rs`, `keys.rs` — account types, error
    codes, protocol constants, 32-byte keys.
  - `codec.rs`, `domains.rs`, `tags.rs`, `hashing.rs` — Borsh encodings and
    the SHA-256 payload hashes that governance commits to.
  - `pda.rs` — the program id and program-derived addresses.
  - `staking.rs` — the ALPHA staking pool and USDC reward index.
  - `security.rs`, `governance.rs` — the Security Layer queue and the mapping
    of governance actions onto it.
  - `module_registry.rs`, `authority_control.rs`, `treasury.rs` — protocol
    modules, the bootstrap-to-DAO authority switch, treasury set-up.
  - `green_label_*.rs` — Green Label certification: bonds and tiers,
    projects, disputes, decisions, escrow, the certification fee, and the
    governance-executed refund, forfeit and certification paths.
  - Each module's `law_*` proof functions state the properties that hold
    across calls (a claim leaves nothing to claim, a queue item executes at
    most once, an escrow pays out once, ...).
- `tests/` — the unit tests, run against the compiled library.
- `app/` — the Solana side: clock, SPL token transfers and the handlers that
  carry out the library's decisions.

The two calls into outside code — `solana_sha256_hasher::hash` and
`Pubkey::try_find_program_address` — sit behind small trusted wrappers in
`hashing.rs` and `pda.rs`; everything else is proved.
