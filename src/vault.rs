//! The treasury's counter and fee policy.
use vstd::prelude::*;
use crate::error::ErrorCode;
use crate::key::Pubkey;
use crate::state::Config;

verus! {

/// A new treasury: empty, not paused, administered by `admin`.
pub fn initialize(admin: Pubkey, syncer: Pubkey, verifier: Pubkey, service_fee: u64) -> (r: Config)
    ensures
        r.amount == 0,
        r.admin == admin,
        r.syncer == syncer,
        r.verifier == verifier,
        r.service_fee == service_fee,
        !r.is_paused,
{
    Config { amount: 0, admin, syncer, verifier, service_fee, is_paused: false }
}

/// The administrator replaces the fixed fee; anyone else is refused.
pub fn update_service_fee(config: &mut Config, signer: &Pubkey, new_fixed_fee: u64) -> (r: Result<(), ErrorCode>)
    ensures
        signer@ == old(config).admin@ <==> r is Ok,
        r is Ok ==> *final(config) == (Config { service_fee: new_fixed_fee, ..*old(config) }),
        r matches Err(e) ==> e == ErrorCode::Unauthorized && *final(config) == *old(config),
{
    if !signer.same(&config.admin) {
        return Err(ErrorCode::Unauthorized);
    }
    config.service_fee = new_fixed_fee;
    Ok(())
}

/// Anyone tops up the treasury by `amount`.
pub fn deposit(config: &mut Config, amount: u64)
    requires
        old(config).amount + amount <= u64::MAX,
    ensures
        *final(config) == (Config { amount: (old(config).amount + amount) as u64, ..*old(config) }),
{
    config.amount = config.amount + amount;
}

/// The administrator takes `amount` out of the treasury; the counter goes
/// down by it, stopping at zero. Anyone else is refused and nothing changes.
pub fn withdraw(config: &mut Config, signer: &Pubkey, amount: u64) -> (r: Result<(), ErrorCode>)
    ensures
        signer@ == old(config).admin@ <==> r is Ok,
        r is Ok ==> *final(config) == (Config {
            amount: if old(config).amount >= amount { (old(config).amount - amount) as u64 } else { 0 },
            ..*old(config)
        }),
        r matches Err(e) ==> e == ErrorCode::Unauthorized && *final(config) == *old(config),
{
    if !signer.same(&config.admin) {
        return Err(ErrorCode::Unauthorized);
    }
    config.amount = config.amount.saturating_sub(amount);
    Ok(())
}

} // verus!
