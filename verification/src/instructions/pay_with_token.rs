use crate::address::Address;
use crate::context::{Account, Context, PaymentTransfers, Signer, TokenAccount, TokenTransfer};
use crate::errors::{InstructionError, VaultError};
use crate::instructions::fee::{fee_of, fee_product_fits, BPS_DENOMINATOR};
use crate::pda::{
    canonical_bump, check_seeds_with_bump, derives_with_bump, find_canonical_bump,
    is_canonical_address,
};
use crate::seeds::{
    config_seeds, config_seeds_of, merchant_seeds, merchant_seeds_of, token_payment_seeds,
    token_payment_seeds_of, treasury_seeds, treasury_seeds_of, vault_seeds, vault_seeds_of,
};
use crate::state::config::Config;
use crate::state::merchant::Merchant;
use crate::state::payment::Payment;
use crate::state::treasury::Treasury;
use crate::state::vault::Vault;
use vstd::prelude::*;

verus! {

/// The accounts of a payment in tokens.
#[derive(Clone, Copy, Debug, PartialEq, Eq)]
pub struct PayWithToken {
    pub payer: Signer,
    pub config: Account<Config>,
    pub merchant: Account<Merchant>,
    pub vault: Account<Vault>,
    pub treasury: Account<Treasury>,
    /// The token account the payment leaves.
    pub payer_token_account: Account<TokenAccount>,
    /// The vault's token account, which receives the merchant's part.
    pub vault_token_account: Account<TokenAccount>,
    /// The treasury's token account, which receives the fee.
    pub treasury_token_account: Account<TokenAccount>,
    /// The record of this payment, created by the instruction.
    pub payment: Account<Payment>,
}

/// The bump seed found for the payment record.
#[derive(Clone, Copy, Debug, PartialEq, Eq)]
pub struct PayWithTokenBumps {
    pub payment: u8,
}

/// Every program account of a token payment is at the address its seeds derive:
/// the record at the canonical address for the merchant and the payer, the
/// others with their stored bumps.
pub open spec fn pay_with_token_accounts_valid(program_id: Seq<u8>, a: PayWithToken) -> bool {
    &&& is_canonical_address(
        token_payment_seeds(a.merchant.key@, a.payer.key@),
        a.payment.key@,
        program_id,
    )
    &&& derives_with_bump(config_seeds(), a.config.data.bump, a.config.key@, program_id)
    &&& derives_with_bump(
        merchant_seeds(a.merchant.data.authority@),
        a.merchant.data.bump,
        a.merchant.key@,
        program_id,
    )
    &&& derives_with_bump(vault_seeds(a.merchant.key@), a.vault.data.bump, a.vault.key@, program_id)
    &&& derives_with_bump(treasury_seeds(), a.treasury.data.bump, a.treasury.key@, program_id)
}

/// A token payment of `amount` can be computed: zero (which is refused), or a
/// fee whose product fits in a `u64` and that is at most the amount.
pub open spec fn token_payment_computable(a: PayWithToken, amount: u64) -> bool {
    let bps = a.config.data.platform_fee_bps;
    amount == 0 || (fee_product_fits(amount, bps) && fee_of(amount, bps) <= amount)
}

/// The transfers of an accepted token payment of `amount`, signed by the payer.
pub open spec fn token_payment_transfers(a: PayWithToken, amount: u64) -> PaymentTransfers<
    TokenTransfer,
> {
    let fee = fee_of(amount, a.config.data.platform_fee_bps);
    PaymentTransfers {
        to_vault: TokenTransfer {
            from: a.payer_token_account.key,
            to: a.vault_token_account.key,
            authority: a.payer.key,
            amount: (amount - fee) as u64,
        },
        to_treasury: TokenTransfer {
            from: a.payer_token_account.key,
            to: a.treasury_token_account.key,
            authority: a.payer.key,
            amount: fee as u64,
        },
    }
}

/// The accounts after an accepted token payment of `amount` at time `now`: the
/// payment recorded with the mint of the payer's token account.
pub open spec fn paid_with_token(
    ctx: Context<PayWithToken, PayWithTokenBumps>,
    amount: u64,
    now: i64,
) -> Context<PayWithToken, PayWithTokenBumps> {
    let a = ctx.accounts;
    let record = Payment {
        payer: a.payer.key,
        mint: a.payer_token_account.data.mint,
        amount,
        fee_amount: fee_of(amount, a.config.data.platform_fee_bps) as u64,
        timestamp: now,
        bump: ctx.bumps.payment,
    };
    Context { accounts: PayWithToken { payment: Account { data: record, ..a.payment }, ..a }, ..ctx }
}

impl PayWithToken {
    /// Checks the addresses of the program's accounts and finds the bump of the
    /// payment record.
    pub fn try_accounts(program_id: &Address, accounts: PayWithToken) -> (r: Result<
        Context<PayWithToken, PayWithTokenBumps>,
        InstructionError,
    >)
        ensures
            r is Ok <==> pay_with_token_accounts_valid(program_id@, accounts),
            r matches Ok(ctx) ==> ctx.program_id == *program_id && ctx.accounts == accounts
                && ctx.bumps.payment == canonical_bump(
                token_payment_seeds(accounts.merchant.key@, accounts.payer.key@),
                program_id@,
            ),
            r matches Ok(ctx) ==> derives_with_bump(
                token_payment_seeds(accounts.merchant.key@, accounts.payer.key@),
                ctx.bumps.payment,
                accounts.payment.key@,
                program_id@,
            ),
            r matches Err(e) ==> e == InstructionError::ConstraintSeeds,
    {
        let payment_seeds = token_payment_seeds_of(&accounts.merchant.key, &accounts.payer.key);
        let payment_bump = match find_canonical_bump(&payment_seeds, &accounts.payment.key, program_id) {
            Some(b) => b,
            None => return Err(InstructionError::ConstraintSeeds),
        };
        if !check_seeds_with_bump(
            config_seeds_of(),
            accounts.config.data.bump,
            &accounts.config.key,
            program_id,
        ) {
            return Err(InstructionError::ConstraintSeeds);
        }
        if !check_seeds_with_bump(
            merchant_seeds_of(&accounts.merchant.data.authority),
            accounts.merchant.data.bump,
            &accounts.merchant.key,
            program_id,
        ) {
            return Err(InstructionError::ConstraintSeeds);
        }
        if !check_seeds_with_bump(
            vault_seeds_of(&accounts.merchant.key),
            accounts.vault.data.bump,
            &accounts.vault.key,
            program_id,
        ) {
            return Err(InstructionError::ConstraintSeeds);
        }
        if !check_seeds_with_bump(
            treasury_seeds_of(),
            accounts.treasury.data.bump,
            &accounts.treasury.key,
            program_id,
        ) {
            return Err(InstructionError::ConstraintSeeds);
        }
        Ok(Context { program_id: *program_id, accounts, bumps: PayWithTokenBumps { payment: payment_bump } })
    }
}

/// Takes a payment of `amount` tokens: the fee at the configured rate goes to the
/// treasury's token account, the rest to the vault's; the payment is recorded
/// with the mint of the payer's token account and the time `now`. Returns the two
/// transfers for the token program to make. A payment of zero is refused and
/// changes nothing.
pub fn handler(ctx: &mut Context<PayWithToken, PayWithTokenBumps>, amount: u64, now: i64) -> (r: Result<
    PaymentTransfers<TokenTransfer>,
    InstructionError,
>)
    requires
        token_payment_computable(old(ctx).accounts, amount),
    ensures
        amount == 0 ==> r == Err::<PaymentTransfers<TokenTransfer>, InstructionError>(
            InstructionError::Vault(VaultError::InvalidPaymentAmount),
        ) && *final(ctx) == *old(ctx),
        amount > 0 ==> r == Ok::<PaymentTransfers<TokenTransfer>, InstructionError>(
            token_payment_transfers(old(ctx).accounts, amount),
        ) && *final(ctx) == paid_with_token(*old(ctx), amount, now),
{
    if amount == 0 {
        return Err(InstructionError::Vault(VaultError::InvalidPaymentAmount));
    }
    let bps = ctx.accounts.config.data.platform_fee_bps;
    let fee = amount * (bps as u64) / BPS_DENOMINATOR;
    let merchant_amount = amount - fee;
    let transfers = PaymentTransfers {
        to_vault: TokenTransfer {
            from: ctx.accounts.payer_token_account.key,
            to: ctx.accounts.vault_token_account.key,
            authority: ctx.accounts.payer.key,
            amount: merchant_amount,
        },
        to_treasury: TokenTransfer {
            from: ctx.accounts.payer_token_account.key,
            to: ctx.accounts.treasury_token_account.key,
            authority: ctx.accounts.payer.key,
            amount: fee,
        },
    };
    ctx.accounts.payment.data = Payment {
        payer: ctx.accounts.payer.key,
        mint: ctx.accounts.payer_token_account.data.mint,
        amount,
        fee_amount: fee,
        timestamp: now,
        bump: ctx.bumps.payment,
    };
    Ok(transfers)
}

} // verus!
