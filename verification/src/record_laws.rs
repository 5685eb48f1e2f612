//! What the payment records, the token withdrawal, and the account checks of
//! withdrawals and registrations must be, over all inputs.
use crate::address::Address;
use crate::context::{Account, Context, Signer};
use crate::errors::VaultError;
use crate::instructions::fee::{fee_of, fee_product_fits};
use crate::instructions::pay_with_sol::{sol_record_refusal, sol_transfer_refusal};
use crate::instructions::pay_with_sol::{
    paid_with_sol, sol_payment_refusal, sol_payment_transfers, PayWithSol, PayWithSolBumps,
};
use crate::instructions::pay_with_token::{
    paid_with_token, token_payment_computable, token_payment_transfers, PayWithToken,
    PayWithTokenBumps,
};
use crate::instructions::initialize_config::{configured, initialize_accounts_valid, Initialize, InitializeBumps};
use crate::instructions::initialize_treasury::{initialize_treasury_accounts_valid, InitializeTreasury};
use crate::instructions::pay_with_sol::pay_with_sol_accounts_valid;
use crate::instructions::pay_with_token::pay_with_token_accounts_valid;
use crate::instructions::register_merchant::{
    register_merchant_accounts_valid, registered, RegisterMerchant, RegisterMerchantBumps,
};
use crate::instructions::withdraw_sol::{withdrawal_accounts_refusal, withdrawal_refusal};
use crate::instructions::withdraw_token::{token_withdrawal_transfer, vault_signer_seeds, WithdrawToken};
use crate::laws::{law_sol_payment_split_is_exact, law_token_payment_split_is_exact};
use crate::pda::{created_program_address, derives_with_bump, is_canonical_address};
use crate::seeds::{config_seeds, merchant_seeds, sol_payment_seeds, token_payment_seeds, treasury_seeds, vault_seeds};
use crate::state::config::Config;
use crate::state::merchant::Merchant;
use crate::state::vault::Vault;
use vstd::prelude::*;

verus! {

/// An accepted token payment records the gross amount paid (the vault's part and
/// the fee together), the fee the treasury receives, the payer, the mint of the
/// payer's token account, the time, and the bump found for the record; it changes
/// no other account.
pub proof fn law_token_payment_record_holds_the_payment(
    ctx: Context<PayWithToken, PayWithTokenBumps>,
    amount: u64,
    now: i64,
)
    requires
        amount > 0,
        token_payment_computable(ctx.accounts, amount),
    ensures
        ({
            let after = paid_with_token(ctx, amount, now);
            let record = after.accounts.payment.data;
            let t = token_payment_transfers(ctx.accounts, amount);
            &&& record.amount == amount
            &&& record.amount == t.to_vault.amount + t.to_treasury.amount
            &&& record.fee_amount == t.to_treasury.amount
            &&& record.payer == ctx.accounts.payer.key
            &&& record.mint == ctx.accounts.payer_token_account.data.mint
            &&& record.timestamp == now
            &&& record.bump == ctx.bumps.payment
            &&& after.accounts.payment.key == ctx.accounts.payment.key
            &&& after.accounts.merchant == ctx.accounts.merchant
            &&& after.accounts.vault == ctx.accounts.vault
            &&& after.accounts.treasury == ctx.accounts.treasury
            &&& after.accounts.config == ctx.accounts.config
            &&& after.accounts.payer == ctx.accounts.payer
            &&& after.bumps == ctx.bumps
        }),
{
    law_token_payment_split_is_exact(ctx.accounts, amount);
}

/// A token payment's record sits at the address its recorded bump derives:
/// where the bump found for the record derives its address, so does the bump the
/// record keeps.
pub proof fn law_token_payment_record_keeps_its_bump(
    ctx: Context<PayWithToken, PayWithTokenBumps>,
    amount: u64,
    now: i64,
)
    requires
        derives_with_bump(
            token_payment_seeds(ctx.accounts.merchant.key@, ctx.accounts.payer.key@),
            ctx.bumps.payment,
            ctx.accounts.payment.key@,
            ctx.program_id@,
        ),
    ensures
        derives_with_bump(
            token_payment_seeds(ctx.accounts.merchant.key@, ctx.accounts.payer.key@),
            paid_with_token(ctx, amount, now).accounts.payment.data.bump,
            paid_with_token(ctx, amount, now).accounts.payment.key@,
            ctx.program_id@,
        ),
{
}

/// An accepted SOL payment records the gross amount paid, the fee the treasury
/// receives, the payer, the zero mint, the time and the bump found for the record,
/// and sets the merchant's count one higher.
pub proof fn law_sol_payment_record_holds_the_payment(
    ctx: Context<PayWithSol, PayWithSolBumps>,
    amount: u64,
    now: i64,
)
    requires
        sol_payment_refusal(ctx.accounts, amount) is None,
    ensures
        ({
            let after = paid_with_sol(ctx, amount, now);
            let record = after.accounts.payment.data;
            let t = sol_payment_transfers(ctx.accounts, amount);
            &&& record.amount == amount
            &&& record.amount == t.to_vault.amount + t.to_treasury.amount
            &&& record.fee_amount == t.to_treasury.amount
            &&& record.payer == ctx.accounts.payer.key
            &&& record.mint@ == Seq::new(32, |i: int| 0u8)
            &&& record.timestamp == now
            &&& record.bump == ctx.bumps.payment
            &&& after.accounts.payment.key == ctx.accounts.payment.key
            &&& after.accounts.merchant.key == ctx.accounts.merchant.key
            &&& after.accounts.merchant.data.payment_count == ctx.accounts.merchant.data.payment_count + 1
            &&& after.bumps == ctx.bumps
        }),
{
    broadcast use vstd::array::group_array_axioms;

    law_sol_payment_split_is_exact(ctx.accounts, amount);
    let record = paid_with_sol(ctx, amount, now).accounts.payment.data;
    assert(record.mint@ =~= Seq::new(32, |i: int| 0u8));
}

/// A SOL payment's record sits at the address its recorded bump derives: where
/// the bump found for the record derives its address from the merchant's seeds for
/// its current count, so does the bump the record keeps. The record thus passes
/// any later check of its address with its stored bump.
pub proof fn law_sol_payment_record_keeps_its_bump(
    ctx: Context<PayWithSol, PayWithSolBumps>,
    amount: u64,
    now: i64,
)
    requires
        derives_with_bump(
            sol_payment_seeds(ctx.accounts.merchant.key@, ctx.accounts.merchant.data.payment_count),
            ctx.bumps.payment,
            ctx.accounts.payment.key@,
            ctx.program_id@,
        ),
    ensures
        derives_with_bump(
            sol_payment_seeds(ctx.accounts.merchant.key@, ctx.accounts.merchant.data.payment_count),
            paid_with_sol(ctx, amount, now).accounts.payment.data.bump,
            paid_with_sol(ctx, amount, now).accounts.payment.key@,
            ctx.program_id@,
        ),
{
}

/// A token withdrawal asks for exactly the amount withdrawn, from the vault's
/// token account to the authority's, signed by the vault; an accepted one never
/// asks for more than the vault's token account holds; and where the accounts pass
/// the withdrawal checks, the seeds the vault signs with derive the vault's own
/// address.
pub proof fn law_token_withdrawal_moves_exactly_the_amount(
    program_id: Address,
    a: WithdrawToken,
    amount: u64,
)
    ensures
        token_withdrawal_transfer(a, amount).amount == amount,
        token_withdrawal_transfer(a, amount).from == a.vault_token_account.key,
        token_withdrawal_transfer(a, amount).to == a.authority_token_account.key,
        token_withdrawal_transfer(a, amount).authority == a.vault.key,
        withdrawal_refusal(a.vault_token_account.data.amount, amount) is None ==> 0
            < token_withdrawal_transfer(a, amount).amount <= a.vault_token_account.data.amount,
        withdrawal_accounts_refusal(program_id@, a.authority, a.merchant, a.vault) is None
            ==> created_program_address(vault_signer_seeds(a), program_id@) == Some(a.vault.key@),
{
}

/// The withdrawal checks pass exactly when the merchant account is at the address
/// the signer's seeds and the merchant's bump derive, the merchant records the
/// signer as its authority, and the vault is at the address the merchant's seeds
/// and the vault's bump derive.
pub proof fn law_withdrawal_checks_pass_exactly_for_the_authority(
    program_id: Seq<u8>,
    authority: Signer,
    merchant: Account<Merchant>,
    vault: Account<Vault>,
)
    ensures
        withdrawal_accounts_refusal(program_id, authority, merchant, vault) is None <==> {
            &&& derives_with_bump(
                merchant_seeds(authority.key@),
                merchant.data.bump,
                merchant.key@,
                program_id,
            )
            &&& merchant.data.authority@ == authority.key@
            &&& derives_with_bump(vault_seeds(merchant.key@), vault.data.bump, vault.key@, program_id)
        },
{
}

/// The withdrawal checks do not look at how many payments the merchant has had,
/// nor at any balance: the same signer, merchant and vault are answered the same
/// whatever the merchant's payment count and the accounts' lamports.
pub proof fn law_withdrawal_checks_ignore_payments(
    program_id: Seq<u8>,
    authority: Signer,
    merchant: Account<Merchant>,
    vault: Account<Vault>,
    count: u64,
    merchant_lamports: u64,
    vault_lamports: u64,
    authority_lamports: u64,
)
    ensures
        withdrawal_accounts_refusal(
            program_id,
            Signer { lamports: authority_lamports, ..authority },
            Account {
                lamports: merchant_lamports,
                data: Merchant { payment_count: count, ..merchant.data },
                ..merchant
            },
            Account { lamports: vault_lamports, ..vault },
        ) == withdrawal_accounts_refusal(program_id, authority, merchant, vault),
{
}

/// An accepted SOL payment leaves the merchant's withdrawal checks as they were:
/// the merchant's authority passes them after the payment exactly when it did
/// before.
pub proof fn law_payment_keeps_withdrawal_checks(
    ctx: Context<PayWithSol, PayWithSolBumps>,
    amount: u64,
    now: i64,
    authority: Signer,
    vault: Account<Vault>,
)
    requires
        sol_payment_refusal(ctx.accounts, amount) is None,
    ensures
        withdrawal_accounts_refusal(
            ctx.program_id@,
            authority,
            paid_with_sol(ctx, amount, now).accounts.merchant,
            vault,
        ) == withdrawal_accounts_refusal(ctx.program_id@, authority, ctx.accounts.merchant, vault),
{
}

/// Registration accounts are accepted exactly when the merchant account and the
/// vault are at the canonical addresses of their seeds and the configuration is at
/// the address its stored bump derives.
pub proof fn law_registration_checks_are_the_address_checks(program_id: Seq<u8>, a: RegisterMerchant)
    ensures
        register_merchant_accounts_valid(program_id, a) <==> {
            &&& is_canonical_address(merchant_seeds(a.authority.key@), a.merchant.key@, program_id)
            &&& is_canonical_address(vault_seeds(a.merchant.key@), a.vault.key@, program_id)
            &&& derives_with_bump(config_seeds(), a.config.data.bump, a.config.key@, program_id)
        },
{
}

/// Registration does not look at the configured fee: the same accounts are
/// accepted or refused whatever fee the configuration holds.
pub proof fn law_registration_ignores_the_fee(program_id: Seq<u8>, a: RegisterMerchant, fee_bps: u16)
    ensures
        register_merchant_accounts_valid(
            program_id,
            RegisterMerchant {
                config: Account {
                    data: Config { platform_fee_bps: fee_bps, ..a.config.data },
                    ..a.config
                },
                ..a
            },
        ) == register_merchant_accounts_valid(program_id, a),
{
}

/// SOL payment accounts are accepted exactly when the record is at the canonical
/// address of the merchant's seeds for its current count, and the configuration,
/// the merchant (by the authority it records), its vault and the treasury are at
/// the addresses their stored bumps derive. Nothing else (the fee, the amount,
/// any balance, the payer) decides.
pub proof fn law_sol_payment_checks_are_the_address_checks(program_id: Seq<u8>, a: PayWithSol)
    ensures
        pay_with_sol_accounts_valid(program_id, a) <==> {
            &&& is_canonical_address(
                sol_payment_seeds(a.merchant.key@, a.merchant.data.payment_count),
                a.payment.key@,
                program_id,
            )
            &&& derives_with_bump(config_seeds(), a.config.data.bump, a.config.key@, program_id)
            &&& derives_with_bump(
                merchant_seeds(a.merchant.data.authority@),
                a.merchant.data.bump,
                a.merchant.key@,
                program_id,
            )
            &&& derives_with_bump(vault_seeds(a.merchant.key@), a.vault.data.bump, a.vault.key@, program_id)
            &&& derives_with_bump(treasury_seeds(), a.treasury.data.bump, a.treasury.key@, program_id)
        },
{
}

/// Token payment accounts are accepted exactly when the record is at the
/// canonical address of the merchant's and payer's seeds, and the configuration,
/// the merchant, its vault and the treasury are at the addresses their stored
/// bumps derive.
pub proof fn law_token_payment_checks_are_the_address_checks(program_id: Seq<u8>, a: PayWithToken)
    ensures
        pay_with_token_accounts_valid(program_id, a) <==> {
            &&& is_canonical_address(
                token_payment_seeds(a.merchant.key@, a.payer.key@),
                a.payment.key@,
                program_id,
            )
            &&& derives_with_bump(config_seeds(), a.config.data.bump, a.config.key@, program_id)
            &&& derives_with_bump(
                merchant_seeds(a.merchant.data.authority@),
                a.merchant.data.bump,
                a.merchant.key@,
                program_id,
            )
            &&& derives_with_bump(vault_seeds(a.merchant.key@), a.vault.data.bump, a.vault.key@, program_id)
            &&& derives_with_bump(treasury_seeds(), a.treasury.data.bump, a.treasury.key@, program_id)
        },
{
}

/// The configuration and the treasury are accepted for creation exactly at the
/// canonical addresses of their seeds.
pub proof fn law_creation_checks_are_the_address_checks(
    program_id: Seq<u8>,
    config: Initialize,
    treasury: InitializeTreasury,
)
    ensures
        initialize_accounts_valid(program_id, config) <==> is_canonical_address(
            config_seeds(),
            config.config.key@,
            program_id,
        ),
        initialize_treasury_accounts_valid(program_id, treasury) <==> is_canonical_address(
            treasury_seeds(),
            treasury.treasury.key@,
            program_id,
        ),
{
}

/// A configuration holds the fee it was created with and the bump found for it,
/// at the address it was given.
pub proof fn law_configuration_holds_its_fee(ctx: Context<Initialize, InitializeBumps>, fee_bps: u16)
    ensures
        configured(ctx, fee_bps).accounts.config.data.platform_fee_bps == fee_bps,
        configured(ctx, fee_bps).accounts.config.data.bump == ctx.bumps.config,
        configured(ctx, fee_bps).accounts.config.key == ctx.accounts.config.key,
        configured(ctx, fee_bps).accounts.payer == ctx.accounts.payer,
{
}

/// A registration records the signing wallet as the merchant's authority, the
/// bumps found for the merchant and the vault, no payment yet, and the merchant
/// account as the vault's merchant; it leaves the signer and the configuration as
/// they were.
pub proof fn law_registration_records_the_merchant(ctx: Context<RegisterMerchant, RegisterMerchantBumps>)
    ensures
        registered(ctx).accounts.merchant.data.authority == ctx.accounts.authority.key,
        registered(ctx).accounts.merchant.data.bump == ctx.bumps.merchant,
        registered(ctx).accounts.merchant.data.payment_count == 0,
        registered(ctx).accounts.merchant.key == ctx.accounts.merchant.key,
        registered(ctx).accounts.vault.data.merchant == ctx.accounts.merchant.key,
        registered(ctx).accounts.vault.data.bump == ctx.bumps.vault,
        registered(ctx).accounts.vault.key == ctx.accounts.vault.key,
        registered(ctx).accounts.authority == ctx.accounts.authority,
        registered(ctx).accounts.config == ctx.accounts.config,
{
}

/// What a refused payment or withdrawal is answered: zero with
/// `InvalidPaymentAmount`; a withdrawal above the balance with
/// `InsufficientFunds`; a SOL payment whose fee product overflows with
/// `MathOverflow`, whose fee exceeds the amount with `MathUnderflow`, and one to
/// a merchant whose count is at its end, once the transfers are made, with
/// `MathOverflow`.
pub proof fn law_refusal_answers(a: PayWithSol, amount: u64, held: u64)
    ensures
        amount == 0 ==> withdrawal_refusal(held, amount) == Some(VaultError::InvalidPaymentAmount),
        0 < amount && held < amount ==> withdrawal_refusal(held, amount) == Some(
            VaultError::InsufficientFunds,
        ),
        amount == 0 ==> sol_transfer_refusal(a, amount) == Some(VaultError::InvalidPaymentAmount),
        amount > 0 && !fee_product_fits(amount, a.config.data.platform_fee_bps) ==> sol_transfer_refusal(
            a,
            amount,
        ) == Some(VaultError::MathOverflow),
        amount > 0 && fee_product_fits(amount, a.config.data.platform_fee_bps) && fee_of(
            amount,
            a.config.data.platform_fee_bps,
        ) > amount ==> sol_transfer_refusal(a, amount) == Some(VaultError::MathUnderflow),
        amount > 0 && fee_product_fits(amount, a.config.data.platform_fee_bps) && fee_of(
            amount,
            a.config.data.platform_fee_bps,
        ) <= amount ==> sol_transfer_refusal(a, amount) is None,
        sol_record_refusal(a) is Some <==> a.merchant.data.payment_count == u64::MAX,
        sol_record_refusal(a) is Some ==> sol_record_refusal(a) == Some(VaultError::MathOverflow),
{
}

} // verus!
