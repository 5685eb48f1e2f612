# merchant_vault

A verified model of a Solana merchant-payment program: customers pay a merchant
in SOL or SPL tokens, a platform fee (at most 1000 basis points) goes to
a treasury, the rest to the merchant's vault, and only the merchant's wallet can
withdraw.

- `src/` — the library, with its proofs: account data (`state`), program-derived
  addresses (`seeds`, `pda`, the latter calling `Pubkey::create_program_address` and
  `Pubkey::try_find_program_address`), one module per instruction with its account
  check and handler (`instructions`), the entry points (`merchant_vault`), the
  properties proved across instructions (`laws`), and a model of the program's
  accounts on the chain over any sequence of instructions (`ledger`,
  `ledger_laws`).
- The fee is set once: a second `initialize_config` is refused because the
  configuration account already exists. That refusal is made by the system
  program when Anchor's `init` creates the account in `app/`; the ledger model
  states it as the rule that a created account must be absent, and proves from
  it that the configuration never changes once created.
- `app/` — the Anchor program: it reads the accounts, asks the library, performs
  the system and token transfers the library names, and stores the results.
- `tests/` — tests of the library against real address derivation.
