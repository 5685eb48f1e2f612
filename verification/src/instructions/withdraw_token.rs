use crate::address::Address;
use crate::context::{Account, Context, Signer, TokenAccount, TokenTransfer, VaultSignedTransfer};
use crate::errors::{InstructionError, VaultError};
use crate::instructions::withdraw_sol::{check_withdrawal_accounts, withdrawal_accounts_refusal, withdrawal_refusal};
use crate::seeds::{seeds_view, vault_seeds, vault_seeds_of};
use crate::state::merchant::Merchant;
use crate::state::vault::Vault;
use vstd::prelude::*;

verus! {

/// The accounts of a withdrawal of tokens from a vault's token account.
#[derive(Clone, Copy, Debug, PartialEq, Eq)]
pub struct WithdrawToken {
    /// The wallet asking for the withdrawal.
    pub authority: Signer,
    pub merchant: Account<Merchant>,
    /// The vault, whose address signs the transfer.
    pub vault: Account<Vault>,
    /// The token account the tokens leave.
    pub vault_token_account: Account<TokenAccount>,
    /// The token account the tokens go to.
    pub authority_token_account: Account<TokenAccount>,
}

/// A token withdrawal creates no account, so finds no bump.
#[derive(Clone, Copy, Debug, PartialEq, Eq)]
pub struct WithdrawTokenBumps {}

impl WithdrawToken {
    /// Checks the addresses of the accounts and that the signer is the merchant's
    /// authority.
    pub fn try_accounts(program_id: &Address, accounts: WithdrawToken) -> (r: Result<
        Context<WithdrawToken, WithdrawTokenBumps>,
        InstructionError,
    >)
        ensures
            match withdrawal_accounts_refusal(
                program_id@,
                accounts.authority,
                accounts.merchant,
                accounts.vault,
            ) {
                Some(e) => r == Err::<Context<WithdrawToken, WithdrawTokenBumps>, InstructionError>(e),
                None => r == Ok::<Context<WithdrawToken, WithdrawTokenBumps>, InstructionError>(
                    Context { program_id: *program_id, accounts, bumps: WithdrawTokenBumps {  } },
                ),
            },
    {
        match check_withdrawal_accounts(program_id, &accounts.authority, &accounts.merchant, &accounts.vault) {
            Ok(()) => Ok(Context { program_id: *program_id, accounts, bumps: WithdrawTokenBumps {  } }),
            Err(e) => Err(e),
        }
    }
}

/// The seeds with which the vault signs: its own seeds, then its bump.
pub open spec fn vault_signer_seeds(a: WithdrawToken) -> Seq<Seq<u8>> {
    vault_seeds(a.merchant.key@).push(seq![a.vault.data.bump])
}

/// The transfer of a token withdrawal of `amount`: from the vault's token account
/// to the authority's, with the vault as the authority of the transfer.
pub open spec fn token_withdrawal_transfer(a: WithdrawToken, amount: u64) -> TokenTransfer {
    TokenTransfer {
        from: a.vault_token_account.key,
        to: a.authority_token_account.key,
        authority: a.vault.key,
        amount,
    }
}

/// Asks for `amount` tokens to move from the vault's token account to the
/// authority's, signed by the vault. Zero, or more than the vault's token
/// account holds, is refused.
pub fn handler(ctx: &Context<WithdrawToken, WithdrawTokenBumps>, amount: u64) -> (r: Result<
    VaultSignedTransfer,
    InstructionError,
>)
    ensures
        match withdrawal_refusal(ctx.accounts.vault_token_account.data.amount, amount) {
            Some(e) => r matches Err(err) && err == InstructionError::Vault(e),
            None => r matches Ok(t) && t.transfer == token_withdrawal_transfer(ctx.accounts, amount)
                && seeds_view(&t.signer_seeds) == vault_signer_seeds(ctx.accounts),
        },
{
    if amount == 0 {
        return Err(InstructionError::Vault(VaultError::InvalidPaymentAmount));
    }
    if ctx.accounts.vault_token_account.data.amount < amount {
        return Err(InstructionError::Vault(VaultError::InsufficientFunds));
    }
    let mut signer_seeds = vault_seeds_of(&ctx.accounts.merchant.key);
    let ghost base = seeds_view(&signer_seeds);
    let mut bump: Vec<u8> = Vec::new();
    bump.push(ctx.accounts.vault.data.bump);
    signer_seeds.push(bump);
    assert(seeds_view(&signer_seeds) =~= base.push(seq![ctx.accounts.vault.data.bump]));
    Ok(
        VaultSignedTransfer {
            transfer: TokenTransfer {
                from: ctx.accounts.vault_token_account.key,
                to: ctx.accounts.authority_token_account.key,
                authority: ctx.accounts.vault.key,
                amount,
            },
            signer_seeds,
        },
    )
}

} // verus!
