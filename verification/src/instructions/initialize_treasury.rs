use crate::address::Address;
use crate::context::{Account, Context, Signer};
use crate::errors::InstructionError;
use crate::pda::{canonical_bump, derives_with_bump, find_canonical_bump, is_canonical_address};
use crate::seeds::{treasury_seeds, treasury_seeds_of};
use crate::state::treasury::Treasury;
use vstd::prelude::*;

verus! {

/// The accounts of the creation of the treasury.
#[derive(Clone, Copy, Debug, PartialEq, Eq)]
pub struct InitializeTreasury {
    /// The treasury, created by the instruction.
    pub treasury: Account<Treasury>,
    pub payer: Signer,
}

/// The bump seed found for the treasury.
#[derive(Clone, Copy, Debug, PartialEq, Eq)]
pub struct InitializeTreasuryBumps {
    pub treasury: u8,
}

/// The treasury is at the canonical address of its seeds.
pub open spec fn initialize_treasury_accounts_valid(program_id: Seq<u8>, a: InitializeTreasury) -> bool {
    is_canonical_address(treasury_seeds(), a.treasury.key@, program_id)
}

/// The accounts after the treasury records its bump.
pub open spec fn treasury_initialized(ctx: Context<InitializeTreasury, InitializeTreasuryBumps>) -> Context<
    InitializeTreasury,
    InitializeTreasuryBumps,
> {
    Context {
        accounts: InitializeTreasury {
            treasury: Account { data: Treasury { bump: ctx.bumps.treasury }, ..ctx.accounts.treasury },
            ..ctx.accounts
        },
        ..ctx
    }
}

impl InitializeTreasury {
    /// Checks the treasury's address and finds its bump.
    pub fn try_accounts(program_id: &Address, accounts: InitializeTreasury) -> (r: Result<
        Context<InitializeTreasury, InitializeTreasuryBumps>,
        InstructionError,
    >)
        ensures
            r is Ok <==> initialize_treasury_accounts_valid(program_id@, accounts),
            r matches Ok(ctx) ==> ctx.program_id == *program_id && ctx.accounts == accounts
                && ctx.bumps.treasury == canonical_bump(treasury_seeds(), program_id@),
            r matches Ok(ctx) ==> derives_with_bump(treasury_seeds(), ctx.bumps.treasury, accounts.treasury.key@, program_id@),
            r matches Err(e) ==> e == InstructionError::ConstraintSeeds,
    {
        let seeds = treasury_seeds_of();
        match find_canonical_bump(&seeds, &accounts.treasury.key, program_id) {
            Some(b) => Ok(
                Context {
                    program_id: *program_id,
                    accounts,
                    bumps: InitializeTreasuryBumps { treasury: b },
                },
            ),
            None => Err(InstructionError::ConstraintSeeds),
        }
    }
}

/// Records the treasury's bump.
pub fn handler(ctx: &mut Context<InitializeTreasury, InitializeTreasuryBumps>) -> (r: Result<
    (),
    InstructionError,
>)
    ensures
        r is Ok,
        *final(ctx) == treasury_initialized(*old(ctx)),
{
    ctx.accounts.treasury.data.bump = ctx.bumps.treasury;
    Ok(())
}

} // verus!
