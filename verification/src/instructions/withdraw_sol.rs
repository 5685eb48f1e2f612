use crate::address::Address;
use crate::context::{Account, Context, Signer};
use crate::errors::{InstructionError, VaultError};
use crate::pda::{check_seeds_with_bump, derives_with_bump};
use crate::seeds::{merchant_seeds, merchant_seeds_of, vault_seeds, vault_seeds_of};
use crate::state::merchant::Merchant;
use crate::state::vault::Vault;
use vstd::prelude::*;

verus! {

/// The accounts of a withdrawal of SOL from a vault.
#[derive(Clone, Copy, Debug, PartialEq, Eq)]
pub struct WithdrawSol {
    /// The wallet asking for the withdrawal, which receives it.
    pub authority: Signer,
    pub merchant: Account<Merchant>,
    pub vault: Account<Vault>,
}

/// A SOL withdrawal creates no account, so finds no bump.
#[derive(Clone, Copy, Debug, PartialEq, Eq)]
pub struct WithdrawSolBumps {}

/// Why the accounts of a withdrawal are refused, if they are: a merchant account
/// not at the address the signer's seeds derive, a signer that is not the
/// merchant's authority, or a vault not at the address the merchant's seeds derive.
pub open spec fn withdrawal_accounts_refusal(
    program_id: Seq<u8>,
    authority: Signer,
    merchant: Account<Merchant>,
    vault: Account<Vault>,
) -> Option<InstructionError> {
    if !derives_with_bump(merchant_seeds(authority.key@), merchant.data.bump, merchant.key@, program_id) {
        Some(InstructionError::ConstraintSeeds)
    } else if merchant.data.authority@ != authority.key@ {
        Some(InstructionError::Vault(VaultError::Unauthorized))
    } else if !derives_with_bump(vault_seeds(merchant.key@), vault.data.bump, vault.key@, program_id) {
        Some(InstructionError::ConstraintSeeds)
    } else {
        None
    }
}

/// Checks the accounts of a withdrawal, in the order the program checks them.
pub fn check_withdrawal_accounts(
    program_id: &Address,
    authority: &Signer,
    merchant: &Account<Merchant>,
    vault: &Account<Vault>,
) -> (r: Result<(), InstructionError>)
    ensures
        match withdrawal_accounts_refusal(program_id@, *authority, *merchant, *vault) {
            Some(e) => r == Err::<(), InstructionError>(e),
            None => r is Ok,
        },
{
    if !check_seeds_with_bump(merchant_seeds_of(&authority.key), merchant.data.bump, &merchant.key, program_id) {
        return Err(InstructionError::ConstraintSeeds);
    }
    if !merchant.data.authority.same_as(&authority.key) {
        return Err(InstructionError::Vault(VaultError::Unauthorized));
    }
    if !check_seeds_with_bump(vault_seeds_of(&merchant.key), vault.data.bump, &vault.key, program_id) {
        return Err(InstructionError::ConstraintSeeds);
    }
    Ok(())
}

impl WithdrawSol {
    /// Checks the addresses of the accounts and that the signer is the merchant's
    /// authority.
    pub fn try_accounts(program_id: &Address, accounts: WithdrawSol) -> (r: Result<
        Context<WithdrawSol, WithdrawSolBumps>,
        InstructionError,
    >)
        ensures
            match withdrawal_accounts_refusal(
                program_id@,
                accounts.authority,
                accounts.merchant,
                accounts.vault,
            ) {
                Some(e) => r == Err::<Context<WithdrawSol, WithdrawSolBumps>, InstructionError>(e),
                None => r == Ok::<Context<WithdrawSol, WithdrawSolBumps>, InstructionError>(
                    Context { program_id: *program_id, accounts, bumps: WithdrawSolBumps {  } },
                ),
            },
    {
        match check_withdrawal_accounts(program_id, &accounts.authority, &accounts.merchant, &accounts.vault) {
            Ok(()) => Ok(Context { program_id: *program_id, accounts, bumps: WithdrawSolBumps {  } }),
            Err(e) => Err(e),
        }
    }
}

/// Why a withdrawal of `amount` from a vault holding `held` is refused, if it is.
pub open spec fn withdrawal_refusal(held: u64, amount: u64) -> Option<VaultError> {
    if amount == 0 {
        Some(VaultError::InvalidPaymentAmount)
    } else if held < amount {
        Some(VaultError::InsufficientFunds)
    } else {
        None
    }
}

/// The accounts after a withdrawal of `amount` lamports from the vault to the
/// authority.
pub open spec fn withdrawn_sol(ctx: Context<WithdrawSol, WithdrawSolBumps>, amount: u64) -> Context<
    WithdrawSol,
    WithdrawSolBumps,
> {
    let a = ctx.accounts;
    Context {
        accounts: WithdrawSol {
            authority: Signer { lamports: (a.authority.lamports + amount) as u64, ..a.authority },
            vault: Account { lamports: (a.vault.lamports - amount) as u64, ..a.vault },
            ..a
        },
        ..ctx
    }
}

/// Moves `amount` lamports from the vault to the authority. Zero, or more than
/// the vault holds, is refused and changes nothing.
pub fn handler(ctx: &mut Context<WithdrawSol, WithdrawSolBumps>, amount: u64) -> (r: Result<
    (),
    InstructionError,
>)
    requires
        withdrawal_refusal(old(ctx).accounts.vault.lamports, amount) is None
            ==> old(ctx).accounts.authority.lamports + amount <= u64::MAX,
    ensures
        match withdrawal_refusal(old(ctx).accounts.vault.lamports, amount) {
            Some(e) => r == Err::<(), InstructionError>(InstructionError::Vault(e))
                && *final(ctx) == *old(ctx),
            None => r is Ok && *final(ctx) == withdrawn_sol(*old(ctx), amount),
        },
{
    if amount == 0 {
        return Err(InstructionError::Vault(VaultError::InvalidPaymentAmount));
    }
    if ctx.accounts.vault.lamports < amount {
        return Err(InstructionError::Vault(VaultError::InsufficientFunds));
    }
    ctx.accounts.vault.lamports = ctx.accounts.vault.lamports - amount;
    ctx.accounts.authority.lamports = ctx.accounts.authority.lamports + amount;
    Ok(())
}

} // verus!
