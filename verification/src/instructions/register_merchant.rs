use crate::address::Address;
use crate::context::{Account, Context, Signer};
use crate::errors::InstructionError;
use crate::pda::{
    canonical_bump, check_seeds_with_bump, derives_with_bump, find_canonical_bump,
    is_canonical_address,
};
use crate::seeds::{
    config_seeds, config_seeds_of, merchant_seeds, merchant_seeds_of, vault_seeds, vault_seeds_of,
};
use crate::state::config::Config;
use crate::state::merchant::Merchant;
use crate::state::vault::Vault;
use vstd::prelude::*;

verus! {

/// The accounts of the registration of a merchant.
#[derive(Clone, Copy, Debug, PartialEq, Eq)]
pub struct RegisterMerchant {
    /// The wallet registering as a merchant.
    pub authority: Signer,
    pub config: Account<Config>,
    /// The merchant account, created by the instruction.
    pub merchant: Account<Merchant>,
    /// The merchant's vault, created by the instruction.
    pub vault: Account<Vault>,
}

/// The bump seeds found for the merchant account and its vault.
#[derive(Clone, Copy, Debug, PartialEq, Eq)]
pub struct RegisterMerchantBumps {
    pub merchant: u8,
    pub vault: u8,
}

/// The merchant account and the vault are at the canonical addresses of their
/// seeds, the configuration at the address its stored bump derives.
pub open spec fn register_merchant_accounts_valid(program_id: Seq<u8>, a: RegisterMerchant) -> bool {
    &&& is_canonical_address(merchant_seeds(a.authority.key@), a.merchant.key@, program_id)
    &&& is_canonical_address(vault_seeds(a.merchant.key@), a.vault.key@, program_id)
    &&& derives_with_bump(config_seeds(), a.config.data.bump, a.config.key@, program_id)
}

/// The accounts after a registration: the merchant names its authority and bump
/// and has received no payment yet, the vault names its merchant and bump.
pub open spec fn registered(ctx: Context<RegisterMerchant, RegisterMerchantBumps>) -> Context<
    RegisterMerchant,
    RegisterMerchantBumps,
> {
    let a = ctx.accounts;
    Context {
        accounts: RegisterMerchant {
            merchant: Account {
                data: Merchant { authority: a.authority.key, bump: ctx.bumps.merchant, payment_count: 0 },
                ..a.merchant
            },
            vault: Account {
                data: Vault { merchant: a.merchant.key, bump: ctx.bumps.vault },
                ..a.vault
            },
            ..a
        },
        ..ctx
    }
}

impl RegisterMerchant {
    /// Checks the addresses of the accounts and finds the bumps of the merchant
    /// account and the vault.
    pub fn try_accounts(program_id: &Address, accounts: RegisterMerchant) -> (r: Result<
        Context<RegisterMerchant, RegisterMerchantBumps>,
        InstructionError,
    >)
        ensures
            r is Ok <==> register_merchant_accounts_valid(program_id@, accounts),
            r matches Ok(ctx) ==> ctx.program_id == *program_id && ctx.accounts == accounts
                && ctx.bumps.merchant == canonical_bump(merchant_seeds(accounts.authority.key@), program_id@)
                && ctx.bumps.vault == canonical_bump(vault_seeds(accounts.merchant.key@), program_id@),
            r matches Ok(ctx) ==> derives_with_bump(
                merchant_seeds(accounts.authority.key@),
                ctx.bumps.merchant,
                accounts.merchant.key@,
                program_id@,
            ) && derives_with_bump(
                vault_seeds(accounts.merchant.key@),
                ctx.bumps.vault,
                accounts.vault.key@,
                program_id@,
            ),
            r matches Err(e) ==> e == InstructionError::ConstraintSeeds,
    {
        let merchant_bump = match find_canonical_bump(
            &merchant_seeds_of(&accounts.authority.key),
            &accounts.merchant.key,
            program_id,
        ) {
            Some(b) => b,
            None => return Err(InstructionError::ConstraintSeeds),
        };
        let vault_bump = match find_canonical_bump(
            &vault_seeds_of(&accounts.merchant.key),
            &accounts.vault.key,
            program_id,
        ) {
            Some(b) => b,
            None => return Err(InstructionError::ConstraintSeeds),
        };
        if !check_seeds_with_bump(
            config_seeds_of(),
            accounts.config.data.bump,
            &accounts.config.key,
            program_id,
        ) {
            return Err(InstructionError::ConstraintSeeds);
        }
        Ok(
            Context {
                program_id: *program_id,
                accounts,
                bumps: RegisterMerchantBumps { merchant: merchant_bump, vault: vault_bump },
            },
        )
    }
}

/// Registers the signing wallet as a merchant: the newly created merchant account
/// records the wallet as its authority, its own bump and a payment count of zero;
/// the vault records the merchant
/// account and its own bump.
pub fn handler(ctx: &mut Context<RegisterMerchant, RegisterMerchantBumps>) -> (r: Result<
    (),
    InstructionError,
>)
    ensures
        r is Ok,
        *final(ctx) == registered(*old(ctx)),
{
    ctx.accounts.merchant.data.authority = ctx.accounts.authority.key;
    ctx.accounts.merchant.data.bump = ctx.bumps.merchant;
    ctx.accounts.merchant.data.payment_count = 0;
    ctx.accounts.vault.data.merchant = ctx.accounts.merchant.key;
    ctx.accounts.vault.data.bump = ctx.bumps.vault;
    Ok(())
}

} // verus!
