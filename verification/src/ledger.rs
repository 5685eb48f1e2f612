//! The program's accounts on the chain, and how each instruction changes them.
//!
//! A ledger holds the program's accounts by address. A step is one instruction
//! with the accounts it was given; it is accepted when its accounts are the
//! ledger's (an account it creates being absent, as the system program demands
//! of a new account), when its address and authority checks pass, when its
//! handler does not refuse, and when the transfers it asks for are made. An
//! accepted step writes back what its handler returns, and the lamports its
//! transfers move between program accounts; a refused step changes nothing.
use crate::address::Address;
use crate::context::{Account, Context, TokenTransfer};
use crate::instructions::fee::fee_of;
use crate::instructions::initialize_config::{
    configured, initialize_accounts_valid, Initialize, InitializeBumps, MAX_FEE_BPS,
};
use crate::instructions::initialize_treasury::{
    initialize_treasury_accounts_valid, treasury_initialized, InitializeTreasury,
    InitializeTreasuryBumps,
};
use crate::instructions::pay_with_sol::{
    paid_with_sol, pay_with_sol_accounts_valid, sol_payment_refusal, sol_payment_transfers,
    PayWithSol, PayWithSolBumps,
};
use crate::instructions::pay_with_token::{
    paid_with_token, pay_with_token_accounts_valid, token_payment_computable, PayWithToken,
    PayWithTokenBumps,
};
use crate::instructions::register_merchant::{
    register_merchant_accounts_valid, registered, RegisterMerchant, RegisterMerchantBumps,
};
use crate::instructions::withdraw_sol::{
    withdrawal_accounts_refusal, withdrawal_refusal, withdrawn_sol, WithdrawSol, WithdrawSolBumps,
};
use crate::instructions::withdraw_token::{token_withdrawal_transfer, WithdrawToken};
use crate::pda::canonical_bump;
use crate::pda::found_program_address;
use crate::seeds::{
    config_seeds, merchant_seeds, sol_payment_seeds, token_payment_seeds, treasury_seeds,
    vault_seeds,
};
use crate::state::config::Config;
use crate::state::merchant::Merchant;
use crate::state::payment::Payment;
use crate::state::treasury::Treasury;
use crate::state::vault::Vault;
use vstd::prelude::*;

verus! {

/// The program's accounts, by address.
pub struct Ledger {
    pub config: Option<Account<Config>>,
    pub treasury: Option<Account<Treasury>>,
    pub merchants: Map<Seq<u8>, Account<Merchant>>,
    pub vaults: Map<Seq<u8>, Account<Vault>>,
    pub payments: Map<Seq<u8>, Account<Payment>>,
}

/// One instruction, with the accounts it was given. For a payment, `funded`
/// tells whether the payer's transfers were made; for a token withdrawal,
/// `executed` whether the token program made the transfer.
pub enum Step {
    InitializeConfig { accounts: Initialize, fee_bps: u16 },
    InitializeTreasury { accounts: InitializeTreasury },
    InitializeMerchant { accounts: RegisterMerchant },
    PayWithSol { accounts: PayWithSol, amount: u64, now: i64, funded: bool },
    PayWithToken { accounts: PayWithToken, amount: u64, now: i64, funded: bool },
    WithdrawSol { accounts: WithdrawSol, amount: u64 },
    WithdrawToken { accounts: WithdrawToken, amount: u64, executed: bool },
}

/// The ledger before any instruction.
pub open spec fn empty_ledger() -> Ledger {
    Ledger {
        config: None,
        treasury: None,
        merchants: Map::empty(),
        vaults: Map::empty(),
        payments: Map::empty(),
    }
}

/// The canonical address found from `seeds`.
pub open spec fn canonical_address(seeds: Seq<Seq<u8>>, program_id: Seq<u8>) -> Seq<u8> {
    match found_program_address(seeds, program_id) {
        Some((a, _)) => a,
        None => Seq::empty(),
    }
}

/// The ledger holds `merchant` at its address.
pub open spec fn holds_merchant(l: Ledger, merchant: Account<Merchant>) -> bool {
    l.merchants.contains_key(merchant.key@) && l.merchants[merchant.key@] == merchant
}

/// The ledger holds `vault` at its address.
pub open spec fn holds_vault(l: Ledger, vault: Account<Vault>) -> bool {
    l.vaults.contains_key(vault.key@) && l.vaults[vault.key@] == vault
}

pub open spec fn sol_payment_context(program_id: Address, a: PayWithSol) -> Context<
    PayWithSol,
    PayWithSolBumps,
> {
    Context {
        program_id,
        accounts: a,
        bumps: PayWithSolBumps {
            payment: canonical_bump(
                sol_payment_seeds(a.merchant.key@, a.merchant.data.payment_count),
                program_id@,
            ),
        },
    }
}

pub open spec fn token_payment_context(program_id: Address, a: PayWithToken) -> Context<
    PayWithToken,
    PayWithTokenBumps,
> {
    Context {
        program_id,
        accounts: a,
        bumps: PayWithTokenBumps {
            payment: canonical_bump(token_payment_seeds(a.merchant.key@, a.payer.key@), program_id@),
        },
    }
}

pub open spec fn registration_context(program_id: Address, a: RegisterMerchant) -> Context<
    RegisterMerchant,
    RegisterMerchantBumps,
> {
    Context {
        program_id,
        accounts: a,
        bumps: RegisterMerchantBumps {
            merchant: canonical_bump(merchant_seeds(a.authority.key@), program_id@),
            vault: canonical_bump(vault_seeds(a.merchant.key@), program_id@),
        },
    }
}

/// The lamports a SOL payment adds to the vault and to the treasury fit.
pub open spec fn sol_credits_fit(a: PayWithSol, amount: u64) -> bool {
    &&& a.vault.lamports + sol_payment_transfers(a, amount).to_vault.amount <= u64::MAX
    &&& a.treasury.lamports + sol_payment_transfers(a, amount).to_treasury.amount <= u64::MAX
}

/// Whether the ledger accepts the step.
pub open spec fn accepted(program_id: Address, l: Ledger, s: Step) -> bool {
    match s {
        Step::InitializeConfig { accounts, fee_bps } => {
            &&& l.config is None
            &&& initialize_accounts_valid(program_id@, accounts)
            &&& fee_bps <= MAX_FEE_BPS
        },
        Step::InitializeTreasury { accounts } => {
            &&& l.treasury is None
            &&& initialize_treasury_accounts_valid(program_id@, accounts)
        },
        Step::InitializeMerchant { accounts } => {
            &&& l.config == Some(accounts.config)
            &&& !l.merchants.contains_key(accounts.merchant.key@)
            &&& !l.vaults.contains_key(accounts.vault.key@)
            &&& register_merchant_accounts_valid(program_id@, accounts)
        },
        Step::PayWithSol { accounts, amount, now, funded } => {
            &&& l.config == Some(accounts.config)
            &&& l.treasury == Some(accounts.treasury)
            &&& holds_merchant(l, accounts.merchant)
            &&& holds_vault(l, accounts.vault)
            &&& !l.payments.contains_key(accounts.payment.key@)
            &&& pay_with_sol_accounts_valid(program_id@, accounts)
            &&& sol_payment_refusal(accounts, amount) is None
            &&& funded
            &&& sol_credits_fit(accounts, amount)
        },
        Step::PayWithToken { accounts, amount, now, funded } => {
            &&& l.config == Some(accounts.config)
            &&& l.treasury == Some(accounts.treasury)
            &&& holds_merchant(l, accounts.merchant)
            &&& holds_vault(l, accounts.vault)
            &&& !l.payments.contains_key(accounts.payment.key@)
            &&& pay_with_token_accounts_valid(program_id@, accounts)
            &&& amount > 0
            &&& token_payment_computable(accounts, amount)
            &&& funded
        },
        Step::WithdrawSol { accounts, amount } => {
            &&& holds_merchant(l, accounts.merchant)
            &&& holds_vault(l, accounts.vault)
            &&& withdrawal_accounts_refusal(
                program_id@,
                accounts.authority,
                accounts.merchant,
                accounts.vault,
            ) is None
            &&& withdrawal_refusal(accounts.vault.lamports, amount) is None
            &&& accounts.authority.lamports + amount <= u64::MAX
        },
        Step::WithdrawToken { accounts, amount, executed } => {
            &&& holds_merchant(l, accounts.merchant)
            &&& holds_vault(l, accounts.vault)
            &&& withdrawal_accounts_refusal(
                program_id@,
                accounts.authority,
                accounts.merchant,
                accounts.vault,
            ) is None
            &&& withdrawal_refusal(accounts.vault_token_account.data.amount, amount) is None
            &&& executed
        },
    }
}

/// The ledger after an accepted step.
pub open spec fn written(program_id: Address, l: Ledger, s: Step) -> Ledger {
    match s {
        Step::InitializeConfig { accounts, fee_bps } => {
            let ctx = Context {
                program_id,
                accounts,
                bumps: InitializeBumps { config: canonical_bump(config_seeds(), program_id@) },
            };
            Ledger { config: Some(configured(ctx, fee_bps).accounts.config), ..l }
        },
        Step::InitializeTreasury { accounts } => {
            let ctx = Context {
                program_id,
                accounts,
                bumps: InitializeTreasuryBumps {
                    treasury: canonical_bump(treasury_seeds(), program_id@),
                },
            };
            Ledger { treasury: Some(treasury_initialized(ctx).accounts.treasury), ..l }
        },
        Step::InitializeMerchant { accounts } => {
            let after = registered(registration_context(program_id, accounts)).accounts;
            Ledger {
                merchants: l.merchants.insert(accounts.merchant.key@, after.merchant),
                vaults: l.vaults.insert(accounts.vault.key@, after.vault),
                ..l
            }
        },
        Step::PayWithSol { accounts, amount, now, funded } => {
            let after = paid_with_sol(sol_payment_context(program_id, accounts), amount, now).accounts;
            let t = sol_payment_transfers(accounts, amount);
            Ledger {
                treasury: Some(
                    Account {
                        lamports: (accounts.treasury.lamports + t.to_treasury.amount) as u64,
                        ..accounts.treasury
                    },
                ),
                merchants: l.merchants.insert(accounts.merchant.key@, after.merchant),
                vaults: l.vaults.insert(
                    accounts.vault.key@,
                    Account {
                        lamports: (accounts.vault.lamports + t.to_vault.amount) as u64,
                        ..accounts.vault
                    },
                ),
                payments: l.payments.insert(accounts.payment.key@, after.payment),
                ..l
            }
        },
        Step::PayWithToken { accounts, amount, now, funded } => {
            let after = paid_with_token(token_payment_context(program_id, accounts), amount, now).accounts;
            Ledger { payments: l.payments.insert(accounts.payment.key@, after.payment), ..l }
        },
        Step::WithdrawSol { accounts, amount } => {
            let ctx = Context { program_id, accounts, bumps: WithdrawSolBumps {  } };
            Ledger {
                vaults: l.vaults.insert(accounts.vault.key@, withdrawn_sol(ctx, amount).accounts.vault),
                ..l
            }
        },
        Step::WithdrawToken { .. } => l,
    }
}

/// The ledger after a step: written where accepted, unchanged where refused.
pub open spec fn after(program_id: Address, l: Ledger, s: Step) -> Ledger {
    if accepted(program_id, l, s) {
        written(program_id, l, s)
    } else {
        l
    }
}

/// The ledger after a sequence of steps.
pub open spec fn run(program_id: Address, l: Ledger, steps: Seq<Step>) -> Ledger
    decreases steps.len(),
{
    if steps.len() == 0 {
        l
    } else {
        after(program_id, run(program_id, l, steps.drop_last()), steps.last())
    }
}

/// The token transfer signed by a vault that a step asks for, if any.
pub open spec fn vault_signed_transfer(program_id: Address, l: Ledger, s: Step) -> Option<
    TokenTransfer,
> {
    match s {
        Step::WithdrawToken { accounts, amount, executed } => if accepted(program_id, l, s) {
            Some(token_withdrawal_transfer(accounts, amount))
        } else {
            None
        },
        _ => None,
    }
}

/// The step is an accepted SOL payment to the merchant at `merchant`.
pub open spec fn is_accepted_sol_payment_to(
    program_id: Address,
    l: Ledger,
    s: Step,
    merchant: Seq<u8>,
) -> bool {
    accepted(program_id, l, s) && (s matches Step::PayWithSol { accounts, .. }
        && accounts.merchant.key@ == merchant)
}

/// The step is an accepted SOL payment to the merchant at `merchant`, made when
/// that merchant's payment count was `count`.
pub open spec fn is_sol_payment_at_count(
    program_id: Address,
    l: Ledger,
    s: Step,
    merchant: Seq<u8>,
    count: u64,
) -> bool {
    is_accepted_sol_payment_to(program_id, l, s, merchant) && (s matches Step::PayWithSol {
        accounts,
        ..
    } && accounts.merchant.data.payment_count == count)
}

/// The record a SOL payment step writes, where it is accepted.
pub open spec fn sol_record_of(program_id: Address, s: Step) -> Account<Payment> {
    match s {
        Step::PayWithSol { accounts, amount, now, .. } => paid_with_sol(
            sol_payment_context(program_id, accounts),
            amount,
            now,
        ).accounts.payment,
        _ => arbitrary(),
    }
}

/// How many of the steps are accepted SOL payments to the merchant at `merchant`.
pub open spec fn sol_payments_to(program_id: Address, l: Ledger, steps: Seq<Step>, merchant: Seq<u8>) -> nat
    decreases steps.len(),
{
    if steps.len() == 0 {
        0
    } else {
        sol_payments_to(program_id, l, steps.drop_last(), merchant) + if is_accepted_sol_payment_to(
            program_id,
            run(program_id, l, steps.drop_last()),
            steps.last(),
            merchant,
        ) {
            1nat
        } else {
            0nat
        }
    }
}

/// The step is an accepted SOL withdrawal from the vault at `vault`, signed by the
/// authority its merchant records, from a vault at the address the merchant's
/// seeds derive.
pub open spec fn is_authorized_withdrawal_from(
    program_id: Address,
    l: Ledger,
    s: Step,
    vault: Seq<u8>,
) -> bool {
    &&& accepted(program_id, l, s)
    &&& s matches Step::WithdrawSol { accounts, .. }
    &&& s->WithdrawSol_accounts.vault.key@ == vault
    &&& s->WithdrawSol_accounts.merchant.data.authority@ == s->WithdrawSol_accounts.authority.key@
    &&& l.merchants.contains_key(s->WithdrawSol_accounts.merchant.key@)
    &&& crate::pda::derives_with_bump(
        vault_seeds(s->WithdrawSol_accounts.merchant.key@),
        s->WithdrawSol_accounts.vault.data.bump,
        vault,
        program_id@,
    )
}

/// Every stored configuration has a fee of at most 1000 basis points.
pub open spec fn config_within_cap(l: Ledger) -> bool {
    l.config matches Some(c) ==> c.data.platform_fee_bps <= MAX_FEE_BPS
}

/// Every merchant's SOL payments are all recorded: for each count below the
/// merchant's payment count, a payment record sits at the canonical address of
/// that count's seeds.
pub open spec fn sol_records_complete(program_id: Address, l: Ledger) -> bool {
    forall|m: Seq<u8>, i: u64|
        #![trigger l.merchants[m], sol_payment_seeds(m, i)]
        l.merchants.contains_key(m) && i < l.merchants[m].data.payment_count
            ==> l.payments.contains_key(canonical_address(sol_payment_seeds(m, i), program_id@))
}

} // verus!
