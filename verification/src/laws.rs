//! What holds of the program across its instructions.
use crate::context::{Context, Signer};
use crate::errors::{InstructionError, VaultError};
use crate::instructions::fee::{fee_of, fee_product_fits};
use crate::instructions::initialize_config::{configured, Initialize, InitializeBumps, MAX_FEE_BPS};
use crate::instructions::initialize_treasury::{treasury_initialized, InitializeTreasury, InitializeTreasuryBumps};
use crate::instructions::pay_with_sol::{paid_with_sol, sol_payment_refusal, sol_payment_transfers, PayWithSol, PayWithSolBumps};
use crate::instructions::pay_with_token::{token_payment_computable, token_payment_transfers, PayWithToken};
use crate::instructions::register_merchant::{registered, RegisterMerchant, RegisterMerchantBumps};
use crate::instructions::withdraw_sol::{withdrawal_accounts_refusal, withdrawal_refusal, withdrawn_sol, WithdrawSol, WithdrawSolBumps};
use crate::context::Account;
use crate::pda::derives_with_bump;
use crate::seeds::{config_seeds, treasury_seeds, le_bytes, lemma_pow256_positive, merchant_seeds, pow256, sol_payment_seeds, vault_seeds};
use crate::state::merchant::Merchant;
use crate::state::vault::Vault;
use vstd::prelude::*;

verus! {

/// With a fee of at most 1000 basis points, the fee is at most a tenth of the
/// amount, and so never more than the amount.
pub proof fn law_fee_at_most_a_tenth(amount: u64, fee_bps: u16)
    requires
        fee_bps <= MAX_FEE_BPS,
    ensures
        0 <= fee_of(amount, fee_bps),
        10 * fee_of(amount, fee_bps) <= amount,
        fee_of(amount, fee_bps) <= amount,
{
    assert(0 <= fee_of(amount, fee_bps) && 10 * fee_of(amount, fee_bps) <= amount) by (nonlinear_arith)
        requires
            fee_bps <= 1000,
            0 <= amount,
            fee_of(amount, fee_bps) == (amount as int * fee_bps as int) / 10_000,
    ;
}

/// The fee grows with the amount.
pub proof fn law_fee_monotone(smaller: u64, larger: u64, fee_bps: u16)
    requires
        smaller <= larger,
    ensures
        fee_of(smaller, fee_bps) <= fee_of(larger, fee_bps),
{
    assert(smaller as int * fee_bps as int <= larger as int * fee_bps as int) by (nonlinear_arith)
        requires
            smaller <= larger,
            0 <= fee_bps,
    ;
    vstd::arithmetic::div_mod::lemma_div_is_ordered(
        smaller as int * fee_bps as int,
        larger as int * fee_bps as int,
        10_000,
    );
}

/// An accepted SOL payment splits the amount exactly: the payer sends the
/// merchant's part to the vault and the fee to the treasury, and the two add up to
/// the amount.
pub proof fn law_sol_payment_split_is_exact(a: PayWithSol, amount: u64)
    requires
        sol_payment_refusal(a, amount) is None,
    ensures
        sol_payment_transfers(a, amount).to_vault.amount + sol_payment_transfers(
            a,
            amount,
        ).to_treasury.amount == amount,
        sol_payment_transfers(a, amount).to_treasury.amount == fee_of(
            amount,
            a.config.data.platform_fee_bps,
        ),
        sol_payment_transfers(a, amount).to_vault.from == a.payer.key,
        sol_payment_transfers(a, amount).to_treasury.from == a.payer.key,
        sol_payment_transfers(a, amount).to_vault.to == a.vault.key,
        sol_payment_transfers(a, amount).to_treasury.to == a.treasury.key,
{
    assert(0 <= fee_of(amount, a.config.data.platform_fee_bps)) by (nonlinear_arith)
        requires
            fee_of(amount, a.config.data.platform_fee_bps) == (amount as int
                * a.config.data.platform_fee_bps as int) / 10_000,
    ;
}

/// An accepted token payment splits the amount exactly: the payer's token account
/// sends the merchant's part to the vault's and the fee to the treasury's, and the
/// two add up to the amount.
pub proof fn law_token_payment_split_is_exact(a: PayWithToken, amount: u64)
    requires
        amount > 0,
        token_payment_computable(a, amount),
    ensures
        token_payment_transfers(a, amount).to_vault.amount + token_payment_transfers(
            a,
            amount,
        ).to_treasury.amount == amount,
        token_payment_transfers(a, amount).to_treasury.amount == fee_of(
            amount,
            a.config.data.platform_fee_bps,
        ),
        token_payment_transfers(a, amount).to_vault.from == a.payer_token_account.key,
        token_payment_transfers(a, amount).to_treasury.from == a.payer_token_account.key,
        token_payment_transfers(a, amount).to_vault.to == a.vault_token_account.key,
        token_payment_transfers(a, amount).to_treasury.to == a.treasury_token_account.key,
{
    assert(0 <= fee_of(amount, a.config.data.platform_fee_bps)) by (nonlinear_arith)
        requires
            fee_of(amount, a.config.data.platform_fee_bps) == (amount as int
                * a.config.data.platform_fee_bps as int) / 10_000,
    ;
}

/// Under a fee the configuration allows, a SOL payment is refused only when it is
/// zero, when the amount times the fee overflows, or when the merchant's payment
/// count is at its end; never because the fee exceeds the amount.
pub proof fn law_configured_sol_payment_refusals(a: PayWithSol, amount: u64)
    requires
        a.config.data.platform_fee_bps <= MAX_FEE_BPS,
    ensures
        sol_payment_refusal(a, amount) != Some(VaultError::MathUnderflow),
        sol_payment_refusal(a, amount) is None <==> (amount > 0 && fee_product_fits(
            amount,
            a.config.data.platform_fee_bps,
        ) && a.merchant.data.payment_count < u64::MAX),
{
    law_fee_at_most_a_tenth(amount, a.config.data.platform_fee_bps);
}

/// Under a fee the configuration allows, a token payment can be computed exactly
/// when it is zero or the amount times the fee fits in a `u64`.
pub proof fn law_configured_token_payment_computable(a: PayWithToken, amount: u64)
    requires
        a.config.data.platform_fee_bps <= MAX_FEE_BPS,
    ensures
        token_payment_computable(a, amount) <==> (amount == 0 || fee_product_fits(
            amount,
            a.config.data.platform_fee_bps,
        )),
{
    law_fee_at_most_a_tenth(amount, a.config.data.platform_fee_bps);
}

/// An accepted SOL payment raises the merchant's payment count by exactly one,
/// records the payer, the amount, the fee and the time (the recorded fee and
/// amount being what the transfers move), and leaves the payer, the
/// configuration, the vault and the treasury accounts as they were.
pub proof fn law_sol_payment_counts_once(ctx: Context<PayWithSol, PayWithSolBumps>, amount: u64, now: i64)
    requires
        sol_payment_refusal(ctx.accounts, amount) is None,
    ensures
        paid_with_sol(ctx, amount, now).accounts.merchant.data.payment_count
            == ctx.accounts.merchant.data.payment_count + 1,
        paid_with_sol(ctx, amount, now).accounts.merchant.data.authority
            == ctx.accounts.merchant.data.authority,
        paid_with_sol(ctx, amount, now).accounts.payment.data.payer == ctx.accounts.payer.key,
        paid_with_sol(ctx, amount, now).accounts.payment.data.amount == amount,
        paid_with_sol(ctx, amount, now).accounts.payment.data.fee_amount == fee_of(
            amount,
            ctx.accounts.config.data.platform_fee_bps,
        ),
        paid_with_sol(ctx, amount, now).accounts.payment.data.timestamp == now,
        paid_with_sol(ctx, amount, now).accounts.payment.data.fee_amount == sol_payment_transfers(
            ctx.accounts,
            amount,
        ).to_treasury.amount,
        paid_with_sol(ctx, amount, now).accounts.payment.data.amount == sol_payment_transfers(
            ctx.accounts,
            amount,
        ).to_vault.amount + sol_payment_transfers(ctx.accounts, amount).to_treasury.amount,
        paid_with_sol(ctx, amount, now).accounts.payer == ctx.accounts.payer,
        paid_with_sol(ctx, amount, now).accounts.config == ctx.accounts.config,
        paid_with_sol(ctx, amount, now).accounts.vault == ctx.accounts.vault,
        paid_with_sol(ctx, amount, now).accounts.treasury == ctx.accounts.treasury,
{
    law_sol_payment_split_is_exact(ctx.accounts, amount);
}

/// Equal little-endian bytes mean equal numbers, from the top byte down.
proof fn lemma_le_bytes_agree_above(x: u64, y: u64, k: int)
    requires
        0 <= k <= 8,
        le_bytes(x) == le_bytes(y),
    ensures
        x as int / pow256(k) == y as int / pow256(k),
    decreases 8 - k,
{
    lemma_pow256_positive(k);
    if k == 8 {
        assert(pow256(8) == 0x1_0000_0000_0000_0000) by {
            reveal_with_fuel(pow256, 9);
        }
        vstd::arithmetic::div_mod::lemma_basic_div(x as int, pow256(8));
        vstd::arithmetic::div_mod::lemma_basic_div(y as int, pow256(8));
    } else {
        lemma_le_bytes_agree_above(x, y, k + 1);
        assert(pow256(k + 1) == 256 * pow256(k));
        vstd::arithmetic::div_mod::lemma_div_denominator(x as int, pow256(k), 256);
        vstd::arithmetic::div_mod::lemma_div_denominator(y as int, pow256(k), 256);
        vstd::arithmetic::div_mod::lemma_fundamental_div_mod(x as int / pow256(k), 256);
        vstd::arithmetic::div_mod::lemma_fundamental_div_mod(y as int / pow256(k), 256);
        let bx = (x as int / pow256(k)) % 256;
        let by_ = (y as int / pow256(k)) % 256;
        assert(le_bytes(x)[k] == bx as u8);
        assert(le_bytes(y)[k] == by_ as u8);
        assert(le_bytes(x)[k] == le_bytes(y)[k]);
        assert(0 <= bx < 256 && 0 <= by_ < 256);
        assert(bx == by_);
        assert(x as int / pow256(k) == 256 * (x as int / pow256(k + 1)) + bx);
        assert(y as int / pow256(k) == 256 * (y as int / pow256(k + 1)) + by_);
    }
}

/// Different payment counts give different seeds: each SOL payment to a merchant
/// is recorded under seeds of its own, and the count that each accepted payment
/// raises by one moves the next payment to new seeds.
pub proof fn law_sol_payment_seeds_distinct(merchant: Seq<u8>, count: u64, other: u64)
    requires
        count != other,
    ensures
        sol_payment_seeds(merchant, count) != sol_payment_seeds(merchant, other),
{
    if sol_payment_seeds(merchant, count) == sol_payment_seeds(merchant, other) {
        assert(sol_payment_seeds(merchant, count)[2] == sol_payment_seeds(merchant, other)[2]);
        lemma_le_bytes_agree_above(count, other, 0);
        assert(pow256(0) == 1);
    }
}

/// A withdrawal moves lamports and creates none: the vault loses exactly the
/// amount, the authority gains it, and their total is unchanged.
pub proof fn law_withdrawal_conserves_lamports(ctx: Context<WithdrawSol, WithdrawSolBumps>, amount: u64)
    requires
        withdrawal_refusal(ctx.accounts.vault.lamports, amount) is None,
        ctx.accounts.authority.lamports + amount <= u64::MAX,
    ensures
        withdrawn_sol(ctx, amount).accounts.vault.lamports == ctx.accounts.vault.lamports - amount,
        withdrawn_sol(ctx, amount).accounts.authority.lamports == ctx.accounts.authority.lamports
            + amount,
        withdrawn_sol(ctx, amount).accounts.vault.lamports + withdrawn_sol(
            ctx,
            amount,
        ).accounts.authority.lamports == ctx.accounts.vault.lamports
            + ctx.accounts.authority.lamports,
        withdrawn_sol(ctx, amount).accounts.merchant == ctx.accounts.merchant,
        withdrawn_sol(ctx, amount).accounts.vault.data == ctx.accounts.vault.data,
{
}

/// A vault is never overdrawn: a withdrawal is accepted only for a positive
/// amount no larger than what the vault holds.
pub proof fn law_vault_never_overdrawn(held: u64, amount: u64)
    ensures
        withdrawal_refusal(held, amount) is None <==> 0 < amount <= held,
{
}

/// Only the merchant's authority withdraws: accounts pass the withdrawal checks
/// only when the signer is the authority the merchant account records; a signer
/// other than that authority, at a merchant address its seeds derive, is answered
/// `Unauthorized`.
pub proof fn law_only_authority_withdraws(
    program_id: Seq<u8>,
    authority: Signer,
    merchant: Account<Merchant>,
    vault: Account<Vault>,
)
    ensures
        withdrawal_accounts_refusal(program_id, authority, merchant, vault) is None
            ==> merchant.data.authority@ == authority.key@,
        derives_with_bump(
            merchant_seeds(authority.key@),
            merchant.data.bump,
            merchant.key@,
            program_id,
        ) && merchant.data.authority@ != authority.key@ ==> withdrawal_accounts_refusal(
            program_id,
            authority,
            merchant,
            vault,
        ) == Some(InstructionError::Vault(VaultError::Unauthorized)),
{
}

/// A merchant registered with the bumps that derive its accounts' addresses
/// passes the checks of its own wallet's later withdrawals, and the merchant and
/// vault checks of later payments to it.
pub proof fn law_registration_passes_later_checks(ctx: Context<RegisterMerchant, RegisterMerchantBumps>)
    requires
        derives_with_bump(
            merchant_seeds(ctx.accounts.authority.key@),
            ctx.bumps.merchant,
            ctx.accounts.merchant.key@,
            ctx.program_id@,
        ),
        derives_with_bump(
            vault_seeds(ctx.accounts.merchant.key@),
            ctx.bumps.vault,
            ctx.accounts.vault.key@,
            ctx.program_id@,
        ),
    ensures
        withdrawal_accounts_refusal(
            ctx.program_id@,
            ctx.accounts.authority,
            registered(ctx).accounts.merchant,
            registered(ctx).accounts.vault,
        ) is None,
        derives_with_bump(
            merchant_seeds(registered(ctx).accounts.merchant.data.authority@),
            registered(ctx).accounts.merchant.data.bump,
            registered(ctx).accounts.merchant.key@,
            ctx.program_id@,
        ),
        derives_with_bump(
            vault_seeds(registered(ctx).accounts.merchant.key@),
            registered(ctx).accounts.vault.data.bump,
            registered(ctx).accounts.vault.key@,
            ctx.program_id@,
        ),
{
}

/// The merchant can take out what a payment put in: once an accepted SOL payment
/// has credited the vault with the merchant's part, withdrawing that part (when it
/// is positive) is accepted and leaves the vault as it was before the payment.
pub proof fn law_payment_then_withdrawal(
    payment: PayWithSol,
    amount: u64,
    withdrawal: Context<WithdrawSol, WithdrawSolBumps>,
    before: u64,
)
    requires
        sol_payment_refusal(payment, amount) is None,
        sol_payment_transfers(payment, amount).to_vault.amount > 0,
        withdrawal.accounts.vault.lamports == before + sol_payment_transfers(
            payment,
            amount,
        ).to_vault.amount,
        withdrawal.accounts.authority.lamports + sol_payment_transfers(payment, amount).to_vault.amount
            <= u64::MAX,
    ensures
        withdrawal_refusal(
            withdrawal.accounts.vault.lamports,
            sol_payment_transfers(payment, amount).to_vault.amount,
        ) is None,
        withdrawn_sol(
            withdrawal,
            sol_payment_transfers(payment, amount).to_vault.amount,
        ).accounts.vault.lamports == before,
{
}

/// A configuration created with the bump found for its address passes the
/// configuration check of every later registration and payment.
pub proof fn law_configuration_passes_later_checks(ctx: Context<Initialize, InitializeBumps>, fee_bps: u16)
    requires
        derives_with_bump(config_seeds(), ctx.bumps.config, ctx.accounts.config.key@, ctx.program_id@),
    ensures
        derives_with_bump(
            config_seeds(),
            configured(ctx, fee_bps).accounts.config.data.bump,
            configured(ctx, fee_bps).accounts.config.key@,
            ctx.program_id@,
        ),
        configured(ctx, fee_bps).accounts.config.data.platform_fee_bps == fee_bps,
{
}

/// A treasury created with the bump found for its address passes the treasury
/// check of every later payment.
pub proof fn law_treasury_passes_later_checks(ctx: Context<InitializeTreasury, InitializeTreasuryBumps>)
    requires
        derives_with_bump(treasury_seeds(), ctx.bumps.treasury, ctx.accounts.treasury.key@, ctx.program_id@),
    ensures
        derives_with_bump(
            treasury_seeds(),
            treasury_initialized(ctx).accounts.treasury.data.bump,
            treasury_initialized(ctx).accounts.treasury.key@,
            ctx.program_id@,
        ),
{
}

} // verus!
