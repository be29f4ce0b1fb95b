//! Opening a loan: the terms are checked, the fee comes in, the principal
//! goes out, and the loan record is made.
use vstd::prelude::*;
use crate::error::ErrorCode;
use crate::key::{Pubkey, reserve_key, wrapped_sol_mint};
use crate::state::{Config, PoolLoan, LOAN_DURATION};

verus! {

/// One base unit of the reserve asset's whole coin.
pub const SOL: u64 = 1_000_000_000;

/// What the issuance reads of a token mint.
#[derive(Debug, Clone, Copy)]
pub struct MintInfo {
    pub key: Pubkey,
    pub supply: u64,
    pub decimals: u8,
    pub mint_authority: Option<Pubkey>,
    pub freeze_authority: Option<Pubkey>,
}

/// The identities and mints taking part in a pool's creation.
#[derive(Debug, Clone, Copy)]
pub struct PoolAccounts {
    /// The borrower, who pays for and seeds the pool.
    pub creator: Pubkey,
    pub pool: Pubkey,
    pub lp_mint: Pubkey,
    /// The identity named as owner of the custody account for the LP receipt.
    pub owner: Pubkey,
    pub token_0_mint: MintInfo,
    pub token_1_mint: MintInfo,
}

/// A loan just opened, with the two transfers that go with it.
#[derive(Debug, Clone, Copy)]
pub struct LoanOpening {
    pub loan: PoolLoan,
    /// Reserve-asset units moved from the borrower into the treasury.
    pub fee: u64,
    /// Reserve-asset units moved from the treasury to the borrower.
    pub principal: u64,
    /// Whether the pool's first token is the reserve asset.
    pub reserve_is_token_0: bool,
}

/// The reserve-side amounts a loan may have: 2, 5, 10 or 20 whole coins.
pub open spec fn allowed_principal(a: u64) -> bool {
    a == 2 * SOL || a == 5 * SOL || a == 10 * SOL || a == 20 * SOL
}

pub fn is_allowed_principal(a: u64) -> (r: bool)
    ensures
        r == allowed_principal(a),
{
    a == 2 * SOL || a == 5 * SOL || a == 10 * SOL || a == 20 * SOL
}

/// The refusal of a loan's terms, or none where they are accepted. The reserve
/// side is the token whose mint is `reserve`; the other is the collateral.
pub open spec fn opening_error(
    config: Config,
    reserve: Seq<u8>,
    acc: PoolAccounts,
    amount_0: u64,
    amount_1: u64,
    duration: i64,
) -> Option<ErrorCode> {
    let on_0 = acc.token_0_mint.key@ == reserve;
    let on_1 = acc.token_1_mint.key@ == reserve;
    let principal = if on_0 { amount_0 } else { amount_1 };
    let collateral = if on_0 { amount_1 } else { amount_0 };
    let mint = if on_0 { acc.token_1_mint } else { acc.token_0_mint };
    if config.is_paused {
        Some(ErrorCode::ProgramPaused)
    } else if on_0 == on_1 {
        Some(ErrorCode::InvalidWrappedSolMint)
    } else if !allowed_principal(principal) {
        Some(ErrorCode::InvalidInitSolAmount)
    } else if config.amount < principal {
        Some(ErrorCode::InsufficientBalance)
    } else if mint.supply != collateral {
        Some(ErrorCode::InsufficientTokenBalance)
    } else if mint.mint_authority is Some {
        Some(ErrorCode::MintAuthorityNotRevoked)
    } else if mint.freeze_authority is Some {
        Some(ErrorCode::FreezeAuthorityNotRevoked)
    } else if duration != LOAN_DURATION {
        Some(ErrorCode::InvalidDuration)
    } else if acc.owner@ != config.admin@ {
        Some(ErrorCode::Unauthorized)
    } else {
        None
    }
}

/// The loan and transfers of accepted terms.
pub open spec fn opening_of(
    config: Config,
    reserve: Seq<u8>,
    acc: PoolAccounts,
    amount_0: u64,
    amount_1: u64,
    now: i64,
) -> LoanOpening {
    let on_0 = acc.token_0_mint.key@ == reserve;
    let principal = if on_0 { amount_0 } else { amount_1 };
    LoanOpening {
        loan: PoolLoan {
            user: acc.creator,
            pool: acc.pool,
            lp_mint: acc.lp_mint,
            token_mint: if on_0 { acc.token_1_mint.key } else { acc.token_0_mint.key },
            init_sol_amount: principal,
            init_token_amount: if on_0 { amount_1 } else { amount_0 },
            loan_start_time: now,
            loan_duration: LOAN_DURATION,
            is_repaid: false,
        },
        fee: config.service_fee,
        principal,
        reserve_is_token_0: on_0,
    }
}

pub open spec fn opening_result(
    config: Config,
    reserve: Seq<u8>,
    acc: PoolAccounts,
    amount_0: u64,
    amount_1: u64,
    duration: i64,
    now: i64,
) -> Result<LoanOpening, ErrorCode> {
    match opening_error(config, reserve, acc, amount_0, amount_1, duration) {
        Some(e) => Err(e),
        None => Ok(opening_of(config, reserve, acc, amount_0, amount_1, now)),
    }
}

/// The treasury after an opening: fee in, principal out; unchanged on a refusal.
pub open spec fn treasury_after_opening(config: Config, r: Result<LoanOpening, ErrorCode>) -> Config {
    match r {
        Ok(o) => Config { amount: (config.amount + o.fee - o.principal) as u64, ..config },
        Err(_) => config,
    }
}

/// Opens a loan on a pool whose reserve asset is the mint `reserve`.
pub fn open_loan(
    config: &mut Config,
    reserve: &Pubkey,
    accounts: &PoolAccounts,
    init_amount_0: u64,
    init_amount_1: u64,
    loan_duration: i64,
    now: i64,
) -> (r: Result<LoanOpening, ErrorCode>)
    requires
        old(config).amount + old(config).service_fee <= u64::MAX,
    ensures
        r == opening_result(*old(config), reserve@, *accounts, init_amount_0, init_amount_1, loan_duration, now),
        *final(config) == treasury_after_opening(*old(config), r),
{
    let on_0 = accounts.token_0_mint.key.same(reserve);
    let on_1 = accounts.token_1_mint.key.same(reserve);
    if config.is_paused {
        return Err(ErrorCode::ProgramPaused);
    }
    if on_0 == on_1 {
        return Err(ErrorCode::InvalidWrappedSolMint);
    }
    let principal = if on_0 { init_amount_0 } else { init_amount_1 };
    let collateral = if on_0 { init_amount_1 } else { init_amount_0 };
    let mint = if on_0 { &accounts.token_1_mint } else { &accounts.token_0_mint };
    if !is_allowed_principal(principal) {
        return Err(ErrorCode::InvalidInitSolAmount);
    }
    if config.amount < principal {
        return Err(ErrorCode::InsufficientBalance);
    }
    if mint.supply != collateral {
        return Err(ErrorCode::InsufficientTokenBalance);
    }
    if mint.mint_authority.is_some() {
        return Err(ErrorCode::MintAuthorityNotRevoked);
    }
    if mint.freeze_authority.is_some() {
        return Err(ErrorCode::FreezeAuthorityNotRevoked);
    }
    if loan_duration != LOAN_DURATION {
        return Err(ErrorCode::InvalidDuration);
    }
    if !accounts.owner.same(&config.admin) {
        return Err(ErrorCode::Unauthorized);
    }
    let loan = PoolLoan {
        user: accounts.creator,
        pool: accounts.pool,
        lp_mint: accounts.lp_mint,
        token_mint: mint.key,
        init_sol_amount: principal,
        init_token_amount: collateral,
        loan_start_time: now,
        loan_duration: LOAN_DURATION,
        is_repaid: false,
    };
    let fee = config.service_fee;
    config.amount = config.amount + fee;
    config.amount = config.amount - principal;
    Ok(LoanOpening { loan, fee, principal, reserve_is_token_0: on_0 })
}

/// Opens a loan on a pool of the wrapped native asset and a collateral token.
pub fn create_liquidity_pool(
    config: &mut Config,
    accounts: &PoolAccounts,
    init_amount_0: u64,
    init_amount_1: u64,
    loan_duration: i64,
    now: i64,
) -> (r: Result<LoanOpening, ErrorCode>)
    requires
        old(config).amount + old(config).service_fee <= u64::MAX,
    ensures
        reserve_key() is None ==> r == Err::<LoanOpening, ErrorCode>(ErrorCode::InvalidWrappedSolMint)
            && *final(config) == *old(config),
        reserve_key() matches Some(k) ==> r == opening_result(
            *old(config), k, *accounts, init_amount_0, init_amount_1, loan_duration, now)
            && *final(config) == treasury_after_opening(*old(config), r),
{
    let reserve = match wrapped_sol_mint() {
        Ok(k) => k,
        Err(e) => return Err(e),
    };
    open_loan(config, &reserve, accounts, init_amount_0, init_amount_1, loan_duration, now)
}

} // verus!
