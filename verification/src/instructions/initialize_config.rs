use crate::address::Address;
use crate::context::{Account, Context, Signer};
use crate::errors::InstructionError;
use crate::pda::{canonical_bump, derives_with_bump, find_canonical_bump, is_canonical_address};
use crate::seeds::{config_seeds, config_seeds_of};
use crate::state::config::Config;
use vstd::prelude::*;

verus! {

/// The highest platform fee a configuration may set: 1000 basis points, 10%.
pub const MAX_FEE_BPS: u16 = 1000;

/// Refusal of a configuration.
#[derive(Clone, Copy, Debug, PartialEq, Eq, Structural)]
pub enum ErrorCode {
    /// A platform fee above 1000 basis points.
    InvalidFee,
}

impl ErrorCode {
    /// The message shown for the error.
    pub fn message(&self) -> (m: &'static str)
        ensures
            m@ == "Invalid fee percentage"@,
    {
        "Invalid fee percentage"
    }
}

/// The accounts of the creation of the platform configuration.
#[derive(Clone, Copy, Debug, PartialEq, Eq)]
pub struct Initialize {
    /// The configuration, created by the instruction.
    pub config: Account<Config>,
    pub payer: Signer,
}

/// The bump seed found for the configuration.
#[derive(Clone, Copy, Debug, PartialEq, Eq)]
pub struct InitializeBumps {
    pub config: u8,
}

/// The configuration is at the canonical address of its seeds.
pub open spec fn initialize_accounts_valid(program_id: Seq<u8>, a: Initialize) -> bool {
    is_canonical_address(config_seeds(), a.config.key@, program_id)
}

/// The accounts after the configuration is set to `fee_bps` basis points with
/// its bump.
pub open spec fn configured(ctx: Context<Initialize, InitializeBumps>, fee_bps: u16) -> Context<
    Initialize,
    InitializeBumps,
> {
    Context {
        accounts: Initialize {
            config: Account {
                data: Config { platform_fee_bps: fee_bps, bump: ctx.bumps.config },
                ..ctx.accounts.config
            },
            ..ctx.accounts
        },
        ..ctx
    }
}

impl Initialize {
    /// Checks the configuration's address and finds its bump.
    pub fn try_accounts(program_id: &Address, accounts: Initialize) -> (r: Result<
        Context<Initialize, InitializeBumps>,
        InstructionError,
    >)
        ensures
            r is Ok <==> initialize_accounts_valid(program_id@, accounts),
            r matches Ok(ctx) ==> ctx.program_id == *program_id && ctx.accounts == accounts
                && ctx.bumps.config == canonical_bump(config_seeds(), program_id@),
            r matches Ok(ctx) ==> derives_with_bump(config_seeds(), ctx.bumps.config, accounts.config.key@, program_id@),
            r matches Err(e) ==> e == InstructionError::ConstraintSeeds,
    {
        let seeds = config_seeds_of();
        match find_canonical_bump(&seeds, &accounts.config.key, program_id) {
            Some(b) => Ok(Context { program_id: *program_id, accounts, bumps: InitializeBumps { config: b } }),
            None => Err(InstructionError::ConstraintSeeds),
        }
    }
}

/// Sets the platform fee to `fee_bps` basis points and records the
/// configuration's bump. A fee above 1000 basis points is refused, and changes
/// nothing.
pub fn handler(ctx: &mut Context<Initialize, InitializeBumps>, fee_bps: u16) -> (r: Result<
    (),
    InstructionError,
>)
    ensures
        fee_bps > MAX_FEE_BPS ==> r == Err::<(), InstructionError>(
            InstructionError::Config(ErrorCode::InvalidFee),
        ) && *final(ctx) == *old(ctx),
        fee_bps <= MAX_FEE_BPS ==> r is Ok && *final(ctx) == configured(*old(ctx), fee_bps),
{
    if fee_bps > MAX_FEE_BPS {
        return Err(InstructionError::Config(ErrorCode::InvalidFee));
    }
    ctx.accounts.config.data.platform_fee_bps = fee_bps;
    ctx.accounts.config.data.bump = ctx.bumps.config;
    Ok(())
}

} // verus!
