use crate::address::{zero_address, Address};
use crate::context::{Account, Context, PaymentTransfers, Signer, SystemTransfer};
use crate::errors::{InstructionError, VaultError};
use crate::instructions::fee::{fee_of, fee_product_fits, BPS_DENOMINATOR};
use crate::pda::{canonical_bump, check_seeds_with_bump, derives_with_bump, find_canonical_bump, is_canonical_address};
use crate::seeds::{
    config_seeds, config_seeds_of, merchant_seeds, merchant_seeds_of, sol_payment_seeds,
    sol_payment_seeds_of, treasury_seeds, treasury_seeds_of, vault_seeds, vault_seeds_of,
};
use crate::state::config::Config;
use crate::state::merchant::Merchant;
use crate::state::payment::Payment;
use crate::state::treasury::Treasury;
use crate::state::vault::Vault;
use vstd::prelude::*;

verus! {

/// The accounts of a payment in SOL.
#[derive(Clone, Copy, Debug, PartialEq, Eq)]
pub struct PayWithSol {
    pub payer: Signer,
    pub config: Account<Config>,
    pub merchant: Account<Merchant>,
    pub vault: Account<Vault>,
    pub treasury: Account<Treasury>,
    /// The record of this payment, created by the instruction.
    pub payment: Account<Payment>,
}

/// The bump seed found for the payment record.
#[derive(Clone, Copy, Debug, PartialEq, Eq)]
pub struct PayWithSolBumps {
    pub payment: u8,
}

/// Every account of a SOL payment is at the address its seeds derive: the
/// record at the canonical address for the merchant's current payment count,
/// the others with their stored bumps.
pub open spec fn pay_with_sol_accounts_valid(program_id: Seq<u8>, a: PayWithSol) -> bool {
    &&& is_canonical_address(
        sol_payment_seeds(a.merchant.key@, a.merchant.data.payment_count),
        a.payment.key@,
        program_id,
    )
    &&& derives_with_bump(config_seeds(), a.config.data.bump, a.config.key@, program_id)
    &&& derives_with_bump(
        merchant_seeds(a.merchant.data.authority@),
        a.merchant.data.bump,
        a.merchant.key@,
        program_id,
    )
    &&& derives_with_bump(vault_seeds(a.merchant.key@), a.vault.data.bump, a.vault.key@, program_id)
    &&& derives_with_bump(treasury_seeds(), a.treasury.data.bump, a.treasury.key@, program_id)
}

/// Why a SOL payment of `amount` is refused before any lamports move, if it is.
pub open spec fn sol_transfer_refusal(a: PayWithSol, amount: u64) -> Option<VaultError> {
    let bps = a.config.data.platform_fee_bps;
    if amount == 0 {
        Some(VaultError::InvalidPaymentAmount)
    } else if !fee_product_fits(amount, bps) {
        Some(VaultError::MathOverflow)
    } else if fee_of(amount, bps) > amount {
        Some(VaultError::MathUnderflow)
    } else {
        None
    }
}

/// Why a SOL payment of `amount` is refused after its transfers were made, if it
/// is: the merchant's payment count is at its end.
pub open spec fn sol_record_refusal(a: PayWithSol) -> Option<VaultError> {
    if a.merchant.data.payment_count == u64::MAX {
        Some(VaultError::MathOverflow)
    } else {
        None
    }
}

/// Why a SOL payment of `amount` whose transfers succeed is refused, if it is.
pub open spec fn sol_payment_refusal(a: PayWithSol, amount: u64) -> Option<VaultError> {
    match sol_transfer_refusal(a, amount) {
        Some(e) => Some(e),
        None => sol_record_refusal(a),
    }
}

/// The transfers of an accepted SOL payment of `amount`.
pub open spec fn sol_payment_transfers(a: PayWithSol, amount: u64) -> PaymentTransfers<
    SystemTransfer,
> {
    let fee = fee_of(amount, a.config.data.platform_fee_bps);
    PaymentTransfers {
        to_vault: SystemTransfer { from: a.payer.key, to: a.vault.key, amount: (amount - fee) as u64 },
        to_treasury: SystemTransfer { from: a.payer.key, to: a.treasury.key, amount: fee as u64 },
    }
}

/// The accounts after an accepted SOL payment of `amount` at time `now`: the
/// payment recorded, the merchant's payment count one higher.
pub open spec fn paid_with_sol(
    ctx: Context<PayWithSol, PayWithSolBumps>,
    amount: u64,
    now: i64,
) -> Context<PayWithSol, PayWithSolBumps> {
    let a = ctx.accounts;
    let record = Payment {
        payer: a.payer.key,
        mint: zero_address(),
        amount,
        fee_amount: fee_of(amount, a.config.data.platform_fee_bps) as u64,
        timestamp: now,
        bump: ctx.bumps.payment,
    };
    let merchant = Merchant { payment_count: (a.merchant.data.payment_count + 1) as u64, ..a.merchant.data };
    Context {
        accounts: PayWithSol {
            merchant: Account { data: merchant, ..a.merchant },
            payment: Account { data: record, ..a.payment },
            ..a
        },
        ..ctx
    }
}

impl PayWithSol {
    /// Checks the addresses of the accounts and finds the bump of the payment record.
    pub fn try_accounts(program_id: &Address, accounts: PayWithSol) -> (r: Result<
        Context<PayWithSol, PayWithSolBumps>,
        InstructionError,
    >)
        ensures
            r is Ok <==> pay_with_sol_accounts_valid(program_id@, accounts),
            r matches Ok(ctx) ==> ctx.program_id == *program_id && ctx.accounts == accounts
                && ctx.bumps.payment == canonical_bump(
                sol_payment_seeds(accounts.merchant.key@, accounts.merchant.data.payment_count),
                program_id@,
            ),
            r matches Ok(ctx) ==> derives_with_bump(
                sol_payment_seeds(accounts.merchant.key@, accounts.merchant.data.payment_count),
                ctx.bumps.payment,
                accounts.payment.key@,
                program_id@,
            ),
            r matches Err(e) ==> e == InstructionError::ConstraintSeeds,
    {
        let payment_seeds = sol_payment_seeds_of(
            &accounts.merchant.key,
            accounts.merchant.data.payment_count,
        );
        let payment_bump = match find_canonical_bump(&payment_seeds, &accounts.payment.key, program_id) {
            Some(b) => b,
            None => return Err(InstructionError::ConstraintSeeds),
        };
        if !check_seeds_with_bump(
            config_seeds_of(),
            accounts.config.data.bump,
            &accounts.config.key,
            program_id,
        ) {
            return Err(InstructionError::ConstraintSeeds);
        }
        if !check_seeds_with_bump(
            merchant_seeds_of(&accounts.merchant.data.authority),
            accounts.merchant.data.bump,
            &accounts.merchant.key,
            program_id,
        ) {
            return Err(InstructionError::ConstraintSeeds);
        }
        if !check_seeds_with_bump(
            vault_seeds_of(&accounts.merchant.key),
            accounts.vault.data.bump,
            &accounts.vault.key,
            program_id,
        ) {
            return Err(InstructionError::ConstraintSeeds);
        }
        if !check_seeds_with_bump(
            treasury_seeds_of(),
            accounts.treasury.data.bump,
            &accounts.treasury.key,
            program_id,
        ) {
            return Err(InstructionError::ConstraintSeeds);
        }
        Ok(Context { program_id: *program_id, accounts, bumps: PayWithSolBumps { payment: payment_bump } })
    }
}

/// The first part of a SOL payment, before any lamports move: refuses a payment
/// of zero, or one whose fee cannot be computed or exceeds the amount; otherwise
/// returns the two transfers for the system program to make: the fee at the
/// configured rate to the treasury, the rest to the merchant's vault.
pub fn prepare_transfers(ctx: &Context<PayWithSol, PayWithSolBumps>, amount: u64) -> (r: Result<
    PaymentTransfers<SystemTransfer>,
    InstructionError,
>)
    ensures
        match sol_transfer_refusal(ctx.accounts, amount) {
            Some(e) => r == Err::<PaymentTransfers<SystemTransfer>, InstructionError>(
                InstructionError::Vault(e),
            ),
            None => r == Ok::<PaymentTransfers<SystemTransfer>, InstructionError>(
                sol_payment_transfers(ctx.accounts, amount),
            ),
        },
{
    if amount == 0 {
        return Err(InstructionError::Vault(VaultError::InvalidPaymentAmount));
    }
    let bps = ctx.accounts.config.data.platform_fee_bps;
    let product = match amount.checked_mul(bps as u64) {
        Some(p) => p,
        None => return Err(InstructionError::Vault(VaultError::MathOverflow)),
    };
    let fee = product / BPS_DENOMINATOR;
    let merchant_amount = match amount.checked_sub(fee) {
        Some(m) => m,
        None => return Err(InstructionError::Vault(VaultError::MathUnderflow)),
    };
    Ok(
        PaymentTransfers {
            to_vault: SystemTransfer {
                from: ctx.accounts.payer.key,
                to: ctx.accounts.vault.key,
                amount: merchant_amount,
            },
            to_treasury: SystemTransfer {
                from: ctx.accounts.payer.key,
                to: ctx.accounts.treasury.key,
                amount: fee,
            },
        },
    )
}

/// The second part of a SOL payment, once its transfers are made: records the
/// payment with the time `now` and raises the merchant's payment count by one. A
/// count at its end is refused, and changes nothing.
pub fn record_payment(ctx: &mut Context<PayWithSol, PayWithSolBumps>, amount: u64, now: i64) -> (r:
    Result<(), InstructionError>)
    requires
        sol_transfer_refusal(old(ctx).accounts, amount) is None,
    ensures
        match sol_record_refusal(old(ctx).accounts) {
            Some(e) => r == Err::<(), InstructionError>(InstructionError::Vault(e))
                && *final(ctx) == *old(ctx),
            None => r is Ok && *final(ctx) == paid_with_sol(*old(ctx), amount, now),
        },
{
    let new_count = match ctx.accounts.merchant.data.payment_count.checked_add(1) {
        Some(c) => c,
        None => return Err(InstructionError::Vault(VaultError::MathOverflow)),
    };
    let bps = ctx.accounts.config.data.platform_fee_bps;
    let fee = amount * (bps as u64) / BPS_DENOMINATOR;
    ctx.accounts.payment.data = Payment {
        payer: ctx.accounts.payer.key,
        mint: Address::zero(),
        amount,
        fee_amount: fee,
        timestamp: now,
        bump: ctx.bumps.payment,
    };
    ctx.accounts.merchant.data.payment_count = new_count;
    Ok(())
}

/// Takes a payment of `amount` lamports whose transfers the system program
/// makes: the fee at the configured rate goes to the treasury, the rest to the
/// merchant's vault; the payment is recorded with the time `now`, and the
/// merchant's payment count goes up by one. Returns the two transfers. A refused
/// payment changes nothing. (Where the transfers themselves fail, between
/// `prepare_transfers` and `record_payment`, the system program's error ends the
/// payment.)
pub fn handler(ctx: &mut Context<PayWithSol, PayWithSolBumps>, amount: u64, now: i64) -> (r: Result<
    PaymentTransfers<SystemTransfer>,
    InstructionError,
>)
    ensures
        match sol_payment_refusal(old(ctx).accounts, amount) {
            Some(e) => r == Err::<PaymentTransfers<SystemTransfer>, InstructionError>(
                InstructionError::Vault(e),
            ) && *final(ctx) == *old(ctx),
            None => r == Ok::<PaymentTransfers<SystemTransfer>, InstructionError>(
                sol_payment_transfers(old(ctx).accounts, amount),
            ) && *final(ctx) == paid_with_sol(*old(ctx), amount, now),
        },
{
    let transfers = match prepare_transfers(ctx, amount) {
        Ok(t) => t,
        Err(e) => return Err(e),
    };
    match record_payment(ctx, amount, now) {
        Ok(()) => Ok(transfers),
        Err(e) => Err(e),
    }
}

} // verus!
