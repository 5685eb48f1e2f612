//! The program's errors.
pub use crate::instructions::initialize_config::ErrorCode;
use vstd::prelude::*;

verus! {

/// Refusals of payments and withdrawals.
#[derive(Clone, Copy, Debug, PartialEq, Eq, Structural)]
pub enum VaultError {
    /// Only the merchant can perform this action.
    Unauthorized,
    /// The vault holds less than the amount asked for.
    InsufficientFunds,
    /// A payment or withdrawal of zero.
    InvalidPaymentAmount,
    /// An amount too large for the fee arithmetic or a payment counter at its end.
    MathOverflow,
    /// A fee larger than the amount it is taken from.
    MathUnderflow,
}

/// Why an instruction was refused.
#[derive(Clone, Copy, Debug, PartialEq, Eq, Structural)]
pub enum InstructionError {
    /// A refusal by the payment and withdrawal rules.
    Vault(VaultError),
    /// A refusal of the configuration.
    Config(ErrorCode),
    /// An account whose address is not the one its seeds derive.
    ConstraintSeeds,
}

impl VaultError {
    /// The message shown for the error.
    pub fn message(&self) -> (m: &'static str)
        ensures
            m@ == vault_error_message(*self),
    {
        match self {
            VaultError::Unauthorized => "Unauthorized: Only the merchant can perform this action.",
            VaultError::InsufficientFunds => "Insufficient funds in the vault.",
            VaultError::InvalidPaymentAmount => "Payment amount must be greater than zero",
            VaultError::MathOverflow => "Arithmetic overflow",
            VaultError::MathUnderflow => "Arithmetic underflow",
        }
    }
}

pub open spec fn vault_error_message(e: VaultError) -> Seq<char> {
    match e {
        VaultError::Unauthorized => "Unauthorized: Only the merchant can perform this action."@,
        VaultError::InsufficientFunds => "Insufficient funds in the vault."@,
        VaultError::InvalidPaymentAmount => "Payment amount must be greater than zero"@,
        VaultError::MathOverflow => "Arithmetic overflow"@,
        VaultError::MathUnderflow => "Arithmetic underflow"@,
    }
}

} // verus!
