use vstd::prelude::*;

verus! {

/// Every way in which an operation of the library can be refused.
#[derive(Debug, Clone, Copy, PartialEq, Eq, Structural)]
pub enum ErrorCode {
    ProgramPaused,
    InsufficientBalance,
    InsufficientTokenBalance,
    InvalidDuration,
    InvalidInitSolAmount,
    InvalidWrappedSolMint,
    InvalidMintAccount,
    LoanAlreadyRepaid,
    Unauthorized,
    LoanExpired,
    LoanNotExpired,
    InvalidFee,
    InvalidTreasury,
    MintAuthorityNotRevoked,
    FreezeAuthorityNotRevoked,
}

impl ErrorCode {
    /// The human-readable message of the error.
    pub fn message(&self) -> (r: &'static str) {
        match self {
            ErrorCode::ProgramPaused => "Program is paused",
            ErrorCode::InsufficientBalance => "Loan doesn't have enough sol",
            ErrorCode::InsufficientTokenBalance => "Please deposit the total supply of token",
            ErrorCode::InvalidDuration => "Loan duration is invalid. It should be 1 day",
            ErrorCode::InvalidInitSolAmount => "Loan sol amount is invalid. It should be one of 2 / 5 / 10 / 20 SOL",
            ErrorCode::InvalidWrappedSolMint => "invalid wrapped sol mint address",
            ErrorCode::InvalidMintAccount => "invalid mint account",
            ErrorCode::LoanAlreadyRepaid => "Loan has already been repaid",
            ErrorCode::Unauthorized => "Unauthorized access",
            ErrorCode::LoanExpired => "Loan has expired",
            ErrorCode::LoanNotExpired => "Loan is not expired yet",
            ErrorCode::InvalidFee => "Invalid fee percentage",
            ErrorCode::InvalidTreasury => "Invalid treasury account",
            ErrorCode::MintAuthorityNotRevoked => "Token mint authority must be revoked",
            ErrorCode::FreezeAuthorityNotRevoked => "Token freeze authority must be revoked",
        }
    }
}

} // verus!
