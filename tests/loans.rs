use smartv21::error::ErrorCode;
use smartv21::issuance::{create_liquidity_pool, is_allowed_principal, open_loan, MintInfo, PoolAccounts, SOL};
use smartv21::key::{wrapped_sol_mint, Pubkey};
use smartv21::settlement::{check_liquidation, check_repayment, liquidate_loan, remove_liquidity, settle, PoolBalances};
use smartv21::state::{Config, PoolLoan, LOAN_DURATION};
use smartv21::vault::{deposit, initialize, update_service_fee, withdraw};

fn key(n: u8) -> Pubkey {
    Pubkey::new([n; 32])
}

fn wsol() -> Pubkey {
    wrapped_sol_mint().unwrap()
}

fn treasury(amount: u64, fee: u64) -> Config {
    let mut c = initialize(key(1), key(2), key(3), fee);
    deposit(&mut c, amount);
    c
}

fn collateral_mint(supply: u64) -> MintInfo {
    MintInfo { key: key(9), supply, decimals: 6, mint_authority: None, freeze_authority: None }
}

fn reserve_mint() -> MintInfo {
    MintInfo { key: wsol(), supply: 0, decimals: 9, mint_authority: Some(key(7)), freeze_authority: None }
}

/// A pool whose first token is the reserve asset, owned by the administrator.
fn accounts(supply: u64) -> PoolAccounts {
    PoolAccounts {
        creator: key(4),
        pool: key(5),
        lp_mint: key(6),
        owner: key(1),
        token_0_mint: reserve_mint(),
        token_1_mint: collateral_mint(supply),
    }
}

const SUPPLY: u64 = 1_000_000_000_000;
const NOW: i64 = 1_700_000_000;

fn open(config: &mut Config, amount: u64) -> Result<smartv21::issuance::LoanOpening, ErrorCode> {
    create_liquidity_pool(config, &accounts(SUPPLY), amount, SUPPLY, LOAN_DURATION, NOW)
}

#[test]
fn reserve_mint_decodes_to_native_mint() {
    let expected = anchor_spl::token::spl_token::native_mint::ID.to_bytes();
    assert_eq!(wsol().to_bytes(), expected);
    assert_ne!(wsol(), key(0));
}

#[test]
fn key_equality_is_bytewise() {
    let mut b = [3u8; 32];
    assert!(Pubkey::new(b) == key(3));
    b[31] = 4;
    assert!(Pubkey::new(b) != key(3));
    assert!(!Pubkey::new(b).same(&key(3)));
}

#[test]
fn scenario_open_five_coin_loan() {
    let mut c = treasury(20 * SOL, 100_000_000);
    let o = open(&mut c, 5 * SOL).unwrap();
    assert_eq!(c.amount, 15_100_000_000);
    assert_eq!(o.loan.init_sol_amount, 5 * SOL);
    assert_eq!(o.loan.init_token_amount, SUPPLY);
    assert!(!o.loan.is_repaid);
    assert_eq!(o.fee, 100_000_000);
    assert_eq!(o.principal, 5 * SOL);
    assert!(o.reserve_is_token_0);
    assert_eq!(o.loan.pool, key(5));
    assert_eq!(o.loan.user, key(4));
    assert_eq!(o.loan.lp_mint, key(6));
    assert_eq!(o.loan.token_mint, key(9));
    assert_eq!(o.loan.loan_start_time, NOW);
    assert_eq!(o.loan.loan_duration, 86400);
}

#[test]
fn scenario_settle_caps_at_principal() {
    let mut c = treasury(20 * SOL, 100_000_000);
    let mut loan = open(&mut c, 5 * SOL).unwrap().loan;
    let b = PoolBalances {
        token_0_mint: wsol(),
        token_0_before: 1_000,
        token_0_after: 1_000 + 5_300_000_000,
        token_1_before: 0,
        token_1_after: 700,
    };
    let s = remove_liquidity(&mut c, &mut loan, &key(4), NOW + 10, &b).unwrap();
    assert_eq!(s.returned, 5 * SOL);
    assert_eq!(s.surplus, 300_000_000);
    assert_eq!(s.collateral_received, 700);
    assert_eq!(c.amount, 15_100_000_000 + 5 * SOL);
    assert_eq!(loan.init_sol_amount, 0);
    assert_eq!(loan.init_token_amount, SUPPLY - 700);
    assert!(loan.is_repaid);
}

#[test]
fn settle_below_principal_returns_all() {
    let mut c = treasury(20 * SOL, 0);
    let mut loan = open(&mut c, 2 * SOL).unwrap().loan;
    assert_eq!(c.amount, 18 * SOL);
    let b = PoolBalances {
        token_0_mint: key(9),
        token_0_before: 0,
        token_0_after: SUPPLY,
        token_1_before: 10,
        token_1_after: 10 + 1_500_000_000,
    };
    let s = settle(&mut c, &mut loan, &wsol(), &b);
    assert!(!s.reserve_is_token_0);
    assert_eq!(s.returned, 1_500_000_000);
    assert_eq!(s.surplus, 0);
    assert_eq!(c.amount, 18 * SOL + 1_500_000_000);
    assert_eq!(loan.init_sol_amount, 500_000_000);
    assert_eq!(loan.init_token_amount, 0);
}

#[test]
fn second_settlement_is_refused() {
    let mut c = treasury(20 * SOL, 0);
    let mut loan = open(&mut c, 5 * SOL).unwrap().loan;
    let b = PoolBalances { token_0_mint: wsol(), token_0_before: 0, token_0_after: 5, token_1_before: 0, token_1_after: 0 };
    remove_liquidity(&mut c, &mut loan, &key(4), NOW, &b).unwrap();
    let before = (c.amount, loan.init_sol_amount);
    assert_eq!(remove_liquidity(&mut c, &mut loan, &key(4), NOW, &b).unwrap_err(), ErrorCode::LoanAlreadyRepaid);
    let late = NOW + LOAN_DURATION + 1;
    assert_eq!(liquidate_loan(&mut c, &mut loan, &key(8), late, &b).unwrap_err(), ErrorCode::LoanAlreadyRepaid);
    assert_eq!((c.amount, loan.init_sol_amount), before);
}

#[test]
fn settlement_windows() {
    let mut c = treasury(20 * SOL, 0);
    let loan = open(&mut c, 5 * SOL).unwrap().loan;
    let deadline = NOW + 86400;
    assert_eq!(check_repayment(&loan, &key(4), deadline), Ok(()));
    assert_eq!(check_liquidation(&loan, deadline), Err(ErrorCode::LoanNotExpired));
    assert_eq!(check_repayment(&loan, &key(4), deadline + 1), Err(ErrorCode::LoanExpired));
    assert_eq!(check_liquidation(&loan, deadline + 1), Ok(()));
    assert_eq!(check_repayment(&loan, &key(8), NOW), Err(ErrorCode::Unauthorized));
}

#[test]
fn liquidation_after_deadline() {
    let mut c = treasury(20 * SOL, 0);
    let mut loan = open(&mut c, 10 * SOL).unwrap().loan;
    let b = PoolBalances { token_0_mint: wsol(), token_0_before: 0, token_0_after: 4 * SOL, token_1_before: 0, token_1_after: 0 };
    let early = liquidate_loan(&mut c, &mut loan, &key(8), NOW + 100, &b);
    assert_eq!(early.unwrap_err(), ErrorCode::LoanNotExpired);
    assert!(!loan.is_repaid);
    let late = NOW + 86401;
    let (s, ev) = liquidate_loan(&mut c, &mut loan, &key(8), late, &b).unwrap();
    assert_eq!(s.returned, 4 * SOL);
    assert_eq!(ev.amount, 4 * SOL);
    assert_eq!(ev.pool, key(5));
    assert_eq!(ev.user, key(4));
    assert_eq!(ev.liquidator, key(8));
    assert_eq!(ev.timestamp, late);
    assert_eq!(c.amount, 14 * SOL);
    assert_eq!(loan.init_sol_amount, 6 * SOL);
    assert!(loan.is_repaid);
    assert_eq!(remove_liquidity(&mut c, &mut loan, &key(4), late, &b).unwrap_err(), ErrorCode::LoanAlreadyRepaid);
}

#[test]
fn voluntary_settlement_after_deadline_expired() {
    let mut c = treasury(20 * SOL, 0);
    let mut loan = open(&mut c, 5 * SOL).unwrap().loan;
    let b = PoolBalances { token_0_mint: wsol(), token_0_before: 0, token_0_after: 5 * SOL, token_1_before: 0, token_1_after: 0 };
    let amount = c.amount;
    assert_eq!(remove_liquidity(&mut c, &mut loan, &key(4), NOW + 86401, &b).unwrap_err(), ErrorCode::LoanExpired);
    assert_eq!(remove_liquidity(&mut c, &mut loan, &key(8), NOW, &b).unwrap_err(), ErrorCode::Unauthorized);
    assert_eq!(c.amount, amount);
    assert!(!loan.is_repaid);
}

#[test]
fn allowed_principals() {
    for a in [2 * SOL, 5 * SOL, 10 * SOL, 20 * SOL] {
        assert!(is_allowed_principal(a));
    }
    for a in [0, 1, SOL, 3 * SOL, 2 * SOL + 1, 20 * SOL - 1, 40 * SOL, u64::MAX] {
        assert!(!is_allowed_principal(a));
    }
}

#[test]
fn every_allowed_principal_opens() {
    for a in [2 * SOL, 5 * SOL, 10 * SOL, 20 * SOL] {
        let mut c = treasury(20 * SOL, 7);
        let o = open(&mut c, a).unwrap();
        assert_eq!(c.amount, 20 * SOL + 7 - a);
        assert_eq!(o.loan.init_sol_amount, a);
    }
}

#[test]
fn unlisted_principal_refused() {
    for a in [0, SOL, 3 * SOL, 2 * SOL + 1, 30 * SOL] {
        let mut c = treasury(u64::MAX / 2, 0);
        assert_eq!(open(&mut c, a).unwrap_err(), ErrorCode::InvalidInitSolAmount);
        assert_eq!(c.amount, u64::MAX / 2);
    }
}

#[test]
fn opening_errors() {
    let mut c = treasury(20 * SOL, 0);
    c.is_paused = true;
    assert_eq!(open(&mut c, 5 * SOL).unwrap_err(), ErrorCode::ProgramPaused);

    let mut c = treasury(4 * SOL, 0);
    assert_eq!(open(&mut c, 5 * SOL).unwrap_err(), ErrorCode::InsufficientBalance);

    let mut c = treasury(20 * SOL, 0);
    let acc = accounts(SUPPLY + 1);
    let r = create_liquidity_pool(&mut c, &acc, 5 * SOL, SUPPLY, LOAN_DURATION, NOW);
    assert_eq!(r.unwrap_err(), ErrorCode::InsufficientTokenBalance);

    let mut acc = accounts(SUPPLY);
    acc.token_1_mint.mint_authority = Some(key(7));
    let r = create_liquidity_pool(&mut c, &acc, 5 * SOL, SUPPLY, LOAN_DURATION, NOW);
    assert_eq!(r.unwrap_err(), ErrorCode::MintAuthorityNotRevoked);

    let mut acc = accounts(SUPPLY);
    acc.token_1_mint.freeze_authority = Some(key(7));
    let r = create_liquidity_pool(&mut c, &acc, 5 * SOL, SUPPLY, LOAN_DURATION, NOW);
    assert_eq!(r.unwrap_err(), ErrorCode::FreezeAuthorityNotRevoked);

    let r = create_liquidity_pool(&mut c, &accounts(SUPPLY), 5 * SOL, SUPPLY, 3600, NOW);
    assert_eq!(r.unwrap_err(), ErrorCode::InvalidDuration);

    let mut acc = accounts(SUPPLY);
    acc.owner = key(4);
    let r = create_liquidity_pool(&mut c, &acc, 5 * SOL, SUPPLY, LOAN_DURATION, NOW);
    assert_eq!(r.unwrap_err(), ErrorCode::Unauthorized);

    let mut acc = accounts(SUPPLY);
    acc.token_0_mint.key = key(10);
    let r = create_liquidity_pool(&mut c, &acc, 5 * SOL, SUPPLY, LOAN_DURATION, NOW);
    assert_eq!(r.unwrap_err(), ErrorCode::InvalidWrappedSolMint);

    assert_eq!(c.amount, 20 * SOL);
}

#[test]
fn reserve_on_second_token() {
    let mut c = treasury(20 * SOL, 1);
    let acc = PoolAccounts {
        creator: key(4),
        pool: key(5),
        lp_mint: key(6),
        owner: key(1),
        token_0_mint: collateral_mint(SUPPLY),
        token_1_mint: reserve_mint(),
    };
    let o = open_loan(&mut c, &wsol(), &acc, SUPPLY, 10 * SOL, LOAN_DURATION, NOW).unwrap();
    assert!(!o.reserve_is_token_0);
    assert_eq!(o.loan.init_sol_amount, 10 * SOL);
    assert_eq!(o.loan.init_token_amount, SUPPLY);
    assert_eq!(c.amount, 10 * SOL + 1);
}

#[test]
fn vault_deposit_and_withdraw() {
    let mut c = initialize(key(1), key(2), key(3), 5);
    assert_eq!(c.amount, 0);
    assert!(!c.is_paused);
    deposit(&mut c, 100);
    assert_eq!(c.amount, 100);
    assert_eq!(withdraw(&mut c, &key(1), 30), Ok(()));
    assert_eq!(c.amount, 70);
    assert_eq!(withdraw(&mut c, &key(1), 500), Ok(()));
    assert_eq!(c.amount, 0);
}

#[test]
fn withdraw_by_stranger_refused() {
    let mut c = treasury(100, 0);
    assert_eq!(withdraw(&mut c, &key(2), 30), Err(ErrorCode::Unauthorized));
    assert_eq!(c.amount, 100);
}

#[test]
fn fee_update_by_admin_only() {
    let mut c = treasury(100, 5);
    assert_eq!(update_service_fee(&mut c, &key(3), 9), Err(ErrorCode::Unauthorized));
    assert_eq!(c.service_fee, 5);
    assert_eq!(update_service_fee(&mut c, &key(1), 9), Ok(()));
    assert_eq!(c.service_fee, 9);
}

#[test]
fn error_messages() {
    assert_eq!(ErrorCode::LoanExpired.message(), "Loan has expired");
    assert_eq!(ErrorCode::ProgramPaused.message(), "Program is paused");
}

#[test]
fn record_sizes() {
    assert_eq!(Config::LEN, 113);
    assert_eq!(PoolLoan::LEN, 161);
}
