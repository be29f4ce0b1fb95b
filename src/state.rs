use vstd::prelude::*;
use crate::key::Pubkey;

verus! {

/// The fixed loan window: one day, in seconds.
pub const LOAN_DURATION: i64 = 86400;

/// The treasury's configuration: one per deployment.
#[derive(Debug, Clone, Copy)]
pub struct Config {
    /// Reserve-asset units held in the treasury's custody.
    pub amount: u64,
    pub admin: Pubkey,
    pub syncer: Pubkey,
    pub verifier: Pubkey,
    /// Fixed fee charged on each loan, in reserve-asset base units.
    pub service_fee: u64,
    pub is_paused: bool,
}

/// A loan, one per financed pool.
#[derive(Debug, Clone, Copy)]
pub struct PoolLoan {
    pub user: Pubkey,
    pub pool: Pubkey,
    pub lp_mint: Pubkey,
    pub token_mint: Pubkey,
    /// Reserve-side principal seeded into the pool.
    pub init_sol_amount: u64,
    /// Collateral-side amount seeded into the pool.
    pub init_token_amount: u64,
    pub loan_start_time: i64,
    pub loan_duration: i64,
    pub is_repaid: bool,
}

/// Notice of a forced settlement, for observers outside the program.
#[derive(Debug, Clone, Copy)]
pub struct LoanLiquidatedEvent {
    pub pool: Pubkey,
    pub user: Pubkey,
    pub liquidator: Pubkey,
    pub amount: u64,
    pub timestamp: i64,
}

impl Config {
    /// Bytes of a stored configuration, without the record's tag.
    pub const LEN: usize = 8 + 32 + 32 + 32 + 8 + 1;
}

impl PoolLoan {
    /// Bytes of a stored loan, without the record's tag.
    pub const LEN: usize = 32 + 32 + 32 + 32 + 8 + 8 + 8 + 8 + 1;

    /// The last instant at which the borrower may still settle.
    pub open spec fn deadline(self) -> int {
        self.loan_start_time + self.loan_duration
    }

    /// Whether the loan window has passed at `now`.
    pub fn is_expired(&self, now: i64) -> (r: bool)
        ensures
            r == (now > self.deadline()),
    {
        (now as i128) > (self.loan_start_time as i128) + (self.loan_duration as i128)
    }
}

} // verus!
