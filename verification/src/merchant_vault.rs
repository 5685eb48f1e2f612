//! The program's instructions, each with the accounts it has validated.
use crate::context::{Context, PaymentTransfers, SystemTransfer, TokenTransfer, VaultSignedTransfer};
use crate::errors::{ErrorCode, InstructionError, VaultError};
use crate::instructions::initialize_config::{self, configured, Initialize, InitializeBumps, MAX_FEE_BPS};
use crate::instructions::initialize_treasury::{self, treasury_initialized, InitializeTreasury, InitializeTreasuryBumps};
use crate::instructions::pay_with_sol::{
    self, paid_with_sol, sol_payment_refusal, sol_payment_transfers, PayWithSol, PayWithSolBumps,
};
use crate::instructions::pay_with_token::{
    self, paid_with_token, token_payment_computable, token_payment_transfers, PayWithToken,
    PayWithTokenBumps,
};
use crate::instructions::register_merchant::{self, registered, RegisterMerchant, RegisterMerchantBumps};
use crate::instructions::withdraw_sol::{self, withdrawal_refusal, withdrawn_sol, WithdrawSol, WithdrawSolBumps};
use crate::instructions::withdraw_token::{
    self, token_withdrawal_transfer, vault_signer_seeds, WithdrawToken, WithdrawTokenBumps,
};
use crate::seeds::seeds_view;
use vstd::prelude::*;

verus! {

/// Creates the platform configuration with a fee of `fee_bps` basis points, at
/// most 1000.
pub fn initialize_config(ctx: &mut Context<Initialize, InitializeBumps>, fee_bps: u16) -> (r: Result<
    (),
    InstructionError,
>)
    ensures
        fee_bps > MAX_FEE_BPS ==> r == Err::<(), InstructionError>(
            InstructionError::Config(ErrorCode::InvalidFee),
        ) && *final(ctx) == *old(ctx),
        fee_bps <= MAX_FEE_BPS ==> r is Ok && *final(ctx) == configured(*old(ctx), fee_bps),
{
    initialize_config::handler(ctx, fee_bps)
}

/// Creates the treasury that receives the platform fees.
pub fn initialize_treasury(ctx: &mut Context<InitializeTreasury, InitializeTreasuryBumps>) -> (r: Result<
    (),
    InstructionError,
>)
    ensures
        r is Ok,
        *final(ctx) == treasury_initialized(*old(ctx)),
{
    initialize_treasury::handler(ctx)
}

/// Registers the signing wallet as a merchant, with its vault.
pub fn initialize_merchant(ctx: &mut Context<RegisterMerchant, RegisterMerchantBumps>) -> (r: Result<
    (),
    InstructionError,
>)
    ensures
        r is Ok,
        *final(ctx) == registered(*old(ctx)),
{
    register_merchant::handler(ctx)
}

/// Takes a payment of `amount` lamports, split between the vault and the treasury.
pub fn pay_with_sol(ctx: &mut Context<PayWithSol, PayWithSolBumps>, amount: u64, now: i64) -> (r:
    Result<PaymentTransfers<SystemTransfer>, InstructionError>)
    ensures
        match sol_payment_refusal(old(ctx).accounts, amount) {
            Some(e) => r == Err::<PaymentTransfers<SystemTransfer>, InstructionError>(
                InstructionError::Vault(e),
            ) && *final(ctx) == *old(ctx),
            None => r == Ok::<PaymentTransfers<SystemTransfer>, InstructionError>(
                sol_payment_transfers(old(ctx).accounts, amount),
            ) && *final(ctx) == paid_with_sol(*old(ctx), amount, now),
        },
{
    pay_with_sol::handler(ctx, amount, now)
}

/// Takes a payment of `amount` tokens, split between the vault's and the
/// treasury's token accounts.
pub fn pay_with_token(ctx: &mut Context<PayWithToken, PayWithTokenBumps>, amount: u64, now: i64) -> (r:
    Result<PaymentTransfers<TokenTransfer>, InstructionError>)
    requires
        token_payment_computable(old(ctx).accounts, amount),
    ensures
        amount == 0 ==> r == Err::<PaymentTransfers<TokenTransfer>, InstructionError>(
            InstructionError::Vault(VaultError::InvalidPaymentAmount),
        ) && *final(ctx) == *old(ctx),
        amount > 0 ==> r == Ok::<PaymentTransfers<TokenTransfer>, InstructionError>(
            token_payment_transfers(old(ctx).accounts, amount),
        ) && *final(ctx) == paid_with_token(*old(ctx), amount, now),
{
    pay_with_token::handler(ctx, amount, now)
}

/// Moves `amount` lamports from the merchant's vault to the merchant's authority.
pub fn withdraw_sol(ctx: &mut Context<WithdrawSol, WithdrawSolBumps>, amount: u64) -> (r: Result<
    (),
    InstructionError,
>)
    requires
        withdrawal_refusal(old(ctx).accounts.vault.lamports, amount) is None
            ==> old(ctx).accounts.authority.lamports + amount <= u64::MAX,
    ensures
        match withdrawal_refusal(old(ctx).accounts.vault.lamports, amount) {
            Some(e) => r == Err::<(), InstructionError>(InstructionError::Vault(e))
                && *final(ctx) == *old(ctx),
            None => r is Ok && *final(ctx) == withdrawn_sol(*old(ctx), amount),
        },
{
    withdraw_sol::handler(ctx, amount)
}

/// Asks for `amount` tokens to move from the vault's token account to the
/// authority's, signed by the vault.
pub fn withdraw_token(ctx: &Context<WithdrawToken, WithdrawTokenBumps>, amount: u64) -> (r: Result<
    VaultSignedTransfer,
    InstructionError,
>)
    ensures
        match withdrawal_refusal(ctx.accounts.vault_token_account.data.amount, amount) {
            Some(e) => r matches Err(err) && err == InstructionError::Vault(e),
            None => r matches Ok(t) && t.transfer == token_withdrawal_transfer(ctx.accounts, amount)
                && seeds_view(&t.signer_seeds) == vault_signer_seeds(ctx.accounts),
        },
{
    withdraw_token::handler(ctx, amount)
}

} // verus!
