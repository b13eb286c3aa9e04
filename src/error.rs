use vstd::prelude::*;

verus! {

/// Errors of the protocol's own domain, each with a stable numeric code.
#[derive(PartialEq, Eq, Structural, Clone, Copy, Debug)]
pub enum NFTError {
    /// Invalid authority
    InvalidAuthority,
    /// Invalid instruction data
    InvalidInstructionData,
    /// Invalid platform fee
    InvalidPlatformFee,
    /// Invalid instruction
    InvalidInstruction,
    /// Failed to unpack U64
    FailedToUnpackU64,
}

pub open spec fn nft_error_code(e: NFTError) -> u32 {
    match e {
        NFTError::InvalidAuthority => 0,
        NFTError::InvalidInstructionData => 1,
        NFTError::InvalidPlatformFee => 2,
        NFTError::InvalidInstruction => 3,
        NFTError::FailedToUnpackU64 => 4,
    }
}

impl NFTError {
    /// The stable code under which the host reports this error.
    pub fn code(&self) -> (r: u32)
        ensures
            r == nft_error_code(*self),
    {
        match self {
            NFTError::InvalidAuthority => 0,
            NFTError::InvalidInstructionData => 1,
            NFTError::InvalidPlatformFee => 2,
            NFTError::InvalidInstruction => 3,
            NFTError::FailedToUnpackU64 => 4,
        }
    }

    /// The error's message.
    pub fn message(&self) -> (r: &'static str) {
        match self {
            NFTError::InvalidAuthority => "Invalid Authority",
            NFTError::InvalidInstructionData => "Invalid Instruction Data",
            NFTError::InvalidPlatformFee => "Invalid Platform Fee",
            NFTError::InvalidInstruction => "Invalid Instruction",
            NFTError::FailedToUnpackU64 => "Failed to unpack U64",
        }
    }
}

/// Why an operation was refused: the host's generic failures, or one of the
/// protocol's own (`Custom`).
#[derive(PartialEq, Eq, Structural, Clone, Copy, Debug)]
pub enum ProcessError {
    /// Fewer accounts were supplied than the operation reads.
    NotEnoughAccountKeys,
    /// An account that must sign did not.
    MissingRequiredSignature,
    /// An account's key, owner or contents is not what the operation expects.
    InvalidAccountData,
    /// The platform record's address does not match its derivation.
    InvalidInstructionData,
    /// The platform record has not been initialized.
    UninitializedAccount,
    /// No derived address exists for the seeds.
    InvalidSeeds,
    /// An escrow account that the operation would create already exists.
    AccountAlreadyInUse,
    /// An escrow holds less currency than it must pay out.
    InsufficientFunds,
    /// A balance would leave the range of `u64`.
    ArithmeticOverflow,
    /// The protocol's own error domain.
    Custom(NFTError),
}

} // verus!
