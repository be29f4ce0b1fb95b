//! Closing a loan: the custodied LP receipt is redeemed through the AMM, and
//! what comes back of the reserve asset, up to the principal, returns to the
//! treasury.
use vstd::prelude::*;
use crate::error::ErrorCode;
use crate::key::{Pubkey, reserve_key, wrapped_sol_mint};
use crate::state::{Config, LoanLiquidatedEvent, PoolLoan};

verus! {

/// The settling party's two token balances around the AMM's liquidity removal.
#[derive(Debug, Clone, Copy)]
pub struct PoolBalances {
    /// Mint of the pool's first token.
    pub token_0_mint: Pubkey,
    pub token_0_before: u64,
    pub token_0_after: u64,
    pub token_1_before: u64,
    pub token_1_after: u64,
}

/// How the proceeds of a settlement are split.
#[derive(Debug, Clone, Copy)]
pub struct Settlement {
    /// Reserve-asset units moved back into the treasury: what came out of
    /// the pool, capped at the loan's principal.
    pub returned: u64,
    /// Reserve-asset units above the principal. They are not moved: they stay
    /// with the settling party.
    pub surplus: u64,
    /// Collateral-asset units that came out of the pool; they stay with the
    /// settling party.
    pub collateral_received: u64,
    /// Whether the pool's first token is the reserve asset.
    pub reserve_is_token_0: bool,
}

/// Balances that only grew across the removal.
pub open spec fn balances_grew(b: PoolBalances) -> bool {
    b.token_0_before <= b.token_0_after && b.token_1_before <= b.token_1_after
}

/// Why the borrower may not settle at `now`, or none where they may.
pub open spec fn repayment_error(loan: PoolLoan, caller: Pubkey, now: i64) -> Option<ErrorCode> {
    if loan.is_repaid {
        Some(ErrorCode::LoanAlreadyRepaid)
    } else if caller@ != loan.user@ {
        Some(ErrorCode::Unauthorized)
    } else if now > loan.deadline() {
        Some(ErrorCode::LoanExpired)
    } else {
        None
    }
}

/// Why nobody may force the settlement at `now`, or none where anyone may.
pub open spec fn liquidation_error(loan: PoolLoan, now: i64) -> Option<ErrorCode> {
    if loan.is_repaid {
        Some(ErrorCode::LoanAlreadyRepaid)
    } else if now <= loan.deadline() {
        Some(ErrorCode::LoanNotExpired)
    } else {
        None
    }
}

pub open spec fn saturating_sub(a: int, b: int) -> int {
    if a >= b { a - b } else { 0 }
}

/// The split of the proceeds, the reserve side being the token whose mint is `reserve`.
pub open spec fn settlement_of(loan: PoolLoan, reserve: Seq<u8>, b: PoolBalances) -> Settlement {
    let on_0 = b.token_0_mint@ == reserve;
    let reserve_in = if on_0 { b.token_0_after - b.token_0_before } else { b.token_1_after - b.token_1_before };
    let collateral_in = if on_0 { b.token_1_after - b.token_1_before } else { b.token_0_after - b.token_0_before };
    let returned = if reserve_in > loan.init_sol_amount { loan.init_sol_amount as int } else { reserve_in };
    Settlement {
        returned: returned as u64,
        surplus: (reserve_in - returned) as u64,
        collateral_received: collateral_in as u64,
        reserve_is_token_0: on_0,
    }
}

/// The loan once settled: its principals reduced by what came out, and closed.
pub open spec fn settled_loan(loan: PoolLoan, s: Settlement) -> PoolLoan {
    PoolLoan {
        init_sol_amount: saturating_sub(loan.init_sol_amount as int, s.returned + s.surplus) as u64,
        init_token_amount: saturating_sub(loan.init_token_amount as int, s.collateral_received as int) as u64,
        is_repaid: true,
        ..loan
    }
}

/// The treasury once the returned amount is in.
pub open spec fn treasury_after_settlement(config: Config, s: Settlement) -> Config {
    Config { amount: (config.amount + s.returned) as u64, ..config }
}

/// The result of a settlement call and the treasury and loan after it: unchanged
/// where the call is refused (`refusal`) or the reserve mint is unknown.
pub open spec fn settle_outcome(
    config: Config,
    loan: PoolLoan,
    refusal: Option<ErrorCode>,
    reserve: Option<Seq<u8>>,
    b: PoolBalances,
) -> (Result<Settlement, ErrorCode>, Config, PoolLoan) {
    match refusal {
        Some(e) => (Err(e), config, loan),
        None => match reserve {
            None => (Err(ErrorCode::InvalidWrappedSolMint), config, loan),
            Some(k) => {
                let s = settlement_of(loan, k, b);
                (Ok(s), treasury_after_settlement(config, s), settled_loan(loan, s))
            },
        },
    }
}

/// A forced settlement's result, with its notice.
pub open spec fn with_event(
    out: Result<Settlement, ErrorCode>,
    loan: PoolLoan,
    liquidator: Pubkey,
    now: i64,
) -> Result<(Settlement, LoanLiquidatedEvent), ErrorCode> {
    match out {
        Ok(s) => Ok((s, liquidation_event(loan, liquidator, s, now))),
        Err(e) => Err(e),
    }
}

/// Checks that the borrower may settle their loan at `now`.
pub fn check_repayment(loan: &PoolLoan, caller: &Pubkey, now: i64) -> (r: Result<(), ErrorCode>)
    ensures
        r is Ok <==> repayment_error(*loan, *caller, now) is None,
        r matches Err(e) ==> repayment_error(*loan, *caller, now) == Some(e),
{
    if loan.is_repaid {
        return Err(ErrorCode::LoanAlreadyRepaid);
    }
    if !caller.same(&loan.user) {
        return Err(ErrorCode::Unauthorized);
    }
    if loan.is_expired(now) {
        return Err(ErrorCode::LoanExpired);
    }
    Ok(())
}

/// Checks that anyone may force the loan's settlement at `now`.
pub fn check_liquidation(loan: &PoolLoan, now: i64) -> (r: Result<(), ErrorCode>)
    ensures
        r is Ok <==> liquidation_error(*loan, now) is None,
        r matches Err(e) ==> liquidation_error(*loan, now) == Some(e),
{
    if loan.is_repaid {
        return Err(ErrorCode::LoanAlreadyRepaid);
    }
    if !loan.is_expired(now) {
        return Err(ErrorCode::LoanNotExpired);
    }
    Ok(())
}

/// Splits the proceeds of a removal, returns the capped reserve amount to the
/// treasury and closes the loan.
pub fn settle(config: &mut Config, loan: &mut PoolLoan, reserve: &Pubkey, balances: &PoolBalances) -> (r: Settlement)
    requires
        balances_grew(*balances),
        old(config).amount + settlement_of(*old(loan), reserve@, *balances).returned <= u64::MAX,
    ensures
        r == settlement_of(*old(loan), reserve@, *balances),
        *final(loan) == settled_loan(*old(loan), r),
        *final(config) == treasury_after_settlement(*old(config), r),
{
    let on_0 = balances.token_0_mint.same(reserve);
    let reserve_in: u64;
    let collateral_in: u64;
    if on_0 {
        reserve_in = balances.token_0_after - balances.token_0_before;
        collateral_in = balances.token_1_after - balances.token_1_before;
    } else {
        reserve_in = balances.token_1_after - balances.token_1_before;
        collateral_in = balances.token_0_after - balances.token_0_before;
    }
    let returned = if reserve_in > loan.init_sol_amount { loan.init_sol_amount } else { reserve_in };
    let surplus = reserve_in - returned;
    loan.init_sol_amount = loan.init_sol_amount.saturating_sub(returned + surplus);
    loan.init_token_amount = loan.init_token_amount.saturating_sub(collateral_in);
    loan.is_repaid = true;
    config.amount = config.amount + returned;
    Settlement { returned, surplus, collateral_received: collateral_in, reserve_is_token_0: on_0 }
}

/// The borrower settles their own loan before its window closes.
pub fn remove_liquidity(
    config: &mut Config,
    loan: &mut PoolLoan,
    owner: &Pubkey,
    now: i64,
    balances: &PoolBalances,
) -> (r: Result<Settlement, ErrorCode>)
    requires
        balances_grew(*balances),
        old(config).amount + old(loan).init_sol_amount <= u64::MAX,
    ensures
        (r, *final(config), *final(loan)) == settle_outcome(
            *old(config), *old(loan), repayment_error(*old(loan), *owner, now), reserve_key(), *balances),
{
    match check_repayment(loan, owner, now) {
        Ok(()) => {},
        Err(e) => return Err(e),
    }
    let reserve = match wrapped_sol_mint() {
        Ok(k) => k,
        Err(e) => return Err(e),
    };
    Ok(settle(config, loan, &reserve, balances))
}

/// Anyone settles a loan whose window has closed; the notice names them.
pub fn liquidate_loan(
    config: &mut Config,
    loan: &mut PoolLoan,
    liquidator: &Pubkey,
    now: i64,
    balances: &PoolBalances,
) -> (r: Result<(Settlement, LoanLiquidatedEvent), ErrorCode>)
    requires
        balances_grew(*balances),
        old(config).amount + old(loan).init_sol_amount <= u64::MAX,
    ensures
        r == with_event(
            settle_outcome(*old(config), *old(loan), liquidation_error(*old(loan), now), reserve_key(), *balances).0,
            *old(loan), *liquidator, now),
        *final(config) == settle_outcome(
            *old(config), *old(loan), liquidation_error(*old(loan), now), reserve_key(), *balances).1,
        *final(loan) == settle_outcome(
            *old(config), *old(loan), liquidation_error(*old(loan), now), reserve_key(), *balances).2,
{
    match check_liquidation(loan, now) {
        Ok(()) => {},
        Err(e) => return Err(e),
    }
    let reserve = match wrapped_sol_mint() {
        Ok(k) => k,
        Err(e) => return Err(e),
    };
    let pool = loan.pool;
    let user = loan.user;
    let s = settle(config, loan, &reserve, balances);
    let event = LoanLiquidatedEvent { pool, user, liquidator: *liquidator, amount: s.returned, timestamp: now };
    Ok((s, event))
}

/// The notice of a forced settlement.
pub open spec fn liquidation_event(loan: PoolLoan, liquidator: Pubkey, s: Settlement, now: i64) -> LoanLiquidatedEvent {
    LoanLiquidatedEvent { pool: loan.pool, user: loan.user, liquidator, amount: s.returned, timestamp: now }
}

} // verus!
