//! Properties that relate several operations, or hold of every input.
use vstd::prelude::*;
use crate::error::ErrorCode;
use crate::issuance::{allowed_principal, opening_result, treasury_after_opening, LoanOpening, PoolAccounts};
use crate::key::Pubkey;
use crate::settlement::{
    balances_grew, liquidation_error, repayment_error, settle_outcome, PoolBalances, Settlement,
};
use crate::state::{Config, PoolLoan};

verus! {

/// An accepted opening leaves the treasury at its balance plus the fee minus
/// the principal, and yields one open loan, on the pool it was asked for,
/// whose principal is the amount that left the treasury.
pub proof fn opening_balance(
    config: Config,
    reserve: Seq<u8>,
    acc: PoolAccounts,
    amount_0: u64,
    amount_1: u64,
    duration: i64,
    now: i64,
)
    requires
        opening_result(config, reserve, acc, amount_0, amount_1, duration, now) is Ok,
        config.amount + config.service_fee <= u64::MAX,
    ensures
        opening_result(config, reserve, acc, amount_0, amount_1, duration, now) matches Ok(o) && {
            &&& treasury_after_opening(config, Ok::<LoanOpening, ErrorCode>(o)).amount
                == config.amount + config.service_fee - o.loan.init_sol_amount
            &&& o.fee == config.service_fee
            &&& o.principal == o.loan.init_sol_amount
            &&& !o.loan.is_repaid
            &&& o.loan.pool == acc.pool
            &&& o.loan.user == acc.creator
        },
{
}

/// Where the treasury is running and exactly one side of the pool is the
/// reserve asset, a reserve-side amount outside the allowed denominations is
/// refused with `InvalidInitSolAmount`.
pub proof fn unlisted_principal_refused(
    config: Config,
    reserve: Seq<u8>,
    acc: PoolAccounts,
    amount_0: u64,
    amount_1: u64,
    duration: i64,
    now: i64,
)
    requires
        !config.is_paused,
        (acc.token_0_mint.key@ == reserve) != (acc.token_1_mint.key@ == reserve),
        !allowed_principal(if acc.token_0_mint.key@ == reserve { amount_0 } else { amount_1 }),
    ensures
        opening_result(config, reserve, acc, amount_0, amount_1, duration, now)
            == Err::<LoanOpening, ErrorCode>(ErrorCode::InvalidInitSolAmount),
{
}

/// A loan whose collateral is not the token's whole supply, or whose token can
/// still be minted or frozen, is refused.
pub proof fn unlocked_collateral_refused(
    config: Config,
    reserve: Seq<u8>,
    acc: PoolAccounts,
    amount_0: u64,
    amount_1: u64,
    duration: i64,
    now: i64,
)
    requires
        ({
            let on_0 = acc.token_0_mint.key@ == reserve;
            let mint = if on_0 { acc.token_1_mint } else { acc.token_0_mint };
            let collateral = if on_0 { amount_1 } else { amount_0 };
            mint.supply != collateral || mint.mint_authority is Some || mint.freeze_authority is Some
        }),
    ensures
        opening_result(config, reserve, acc, amount_0, amount_1, duration, now) is Err,
{
}

/// A first accepted settlement closes the loan and moves exactly the reserve
/// amount received, capped at the principal, into the treasury; any later
/// settlement of that loan, by anyone, at any time and on any proceeds, is
/// refused with `LoanAlreadyRepaid`, voluntary or forced.
pub proof fn settlement_is_final(
    config: Config,
    loan: PoolLoan,
    caller: Pubkey,
    now: i64,
    reserve: Seq<u8>,
    balances: PoolBalances,
)
    requires
        repayment_error(loan, caller, now) is None,
        balances_grew(balances),
        config.amount + loan.init_sol_amount <= u64::MAX,
    ensures
        ({
            let first = settle_outcome(config, loan, repayment_error(loan, caller, now), Some(reserve), balances);
            let received: int = if balances.token_0_mint@ == reserve {
                balances.token_0_after - balances.token_0_before
            } else {
                balances.token_1_after - balances.token_1_before
            };
            let capped: int = if received < loan.init_sol_amount { received } else { loan.init_sol_amount as int };
            &&& first.0 is Ok
            &&& first.2.is_repaid
            &&& first.1.amount == config.amount + capped
            &&& forall|c: Pubkey, t: i64, b: PoolBalances|
                #![trigger settle_outcome(first.1, first.2, repayment_error(first.2, c, t), Some(reserve), b)]
                settle_outcome(first.1, first.2, repayment_error(first.2, c, t), Some(reserve), b).0
                    == Err::<Settlement, ErrorCode>(ErrorCode::LoanAlreadyRepaid)
            &&& forall|t: i64, b: PoolBalances|
                #![trigger settle_outcome(first.1, first.2, liquidation_error(first.2, t), Some(reserve), b)]
                settle_outcome(first.1, first.2, liquidation_error(first.2, t), Some(reserve), b).0
                    == Err::<Settlement, ErrorCode>(ErrorCode::LoanAlreadyRepaid)
        }),
{
}

/// On an open loan, the borrower's own settlement is refused with
/// `LoanExpired` exactly after the deadline, a forced one with
/// `LoanNotExpired` exactly up to it: at every instant exactly one of the two
/// is open to the borrower.
pub proof fn windows_complementary(loan: PoolLoan, now: i64)
    requires
        !loan.is_repaid,
    ensures
        now > loan.deadline() <==> repayment_error(loan, loan.user, now) == Some(ErrorCode::LoanExpired),
        now <= loan.deadline() <==> liquidation_error(loan, now) == Some(ErrorCode::LoanNotExpired),
        (repayment_error(loan, loan.user, now) is None) != (liquidation_error(loan, now) is None),
{
}

} // verus!
