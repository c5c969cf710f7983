use crate::amount::{accrue, percentage, percentage_of};
use crate::error::ErrorCode;
use vstd::prelude::*;

verus! {

/// The shared pools of a deployment. Each balance only ever grows, and only
/// through `manage_pools`.
#[derive(Debug, Clone, Copy, PartialEq, Eq, Structural)]
pub struct Pools {
    pub top_sponsor_pool: u64,
    pub whale_pool: u64,
    pub admin_fee_collected: u64,
}

/// The top-sponsor pool's share of a deposit: 5 per 100, rounded down.
pub open spec fn top_sponsor_share(deposit_amount: u64) -> int {
    percentage_of(deposit_amount as int, 5, 100)
}

/// The whale pool's share of a deposit: 25 per 1000, rounded down on its own.
pub open spec fn whale_share(deposit_amount: u64) -> int {
    percentage_of(deposit_amount as int, 25, 1000)
}

/// The administrative fee on a deposit: 5 per 100, rounded down.
pub open spec fn admin_fee(deposit_amount: u64) -> int {
    percentage_of(deposit_amount as int, 5, 100)
}

impl Pools {
    /// The pools of a new deployment: all empty.
    pub open spec fn empty() -> Pools {
        Pools { top_sponsor_pool: 0, whale_pool: 0, admin_fee_collected: 0 }
    }

    /// Whether all three balances still fit after taking their shares of a
    /// deposit.
    pub open spec fn can_take(self, deposit_amount: u64) -> bool {
        &&& self.top_sponsor_pool + top_sponsor_share(deposit_amount) <= u64::MAX
        &&& self.whale_pool + whale_share(deposit_amount) <= u64::MAX
        &&& self.admin_fee_collected + admin_fee(deposit_amount) <= u64::MAX
    }

    /// The pools after taking their shares of a deposit.
    pub open spec fn after_contribution(self, deposit_amount: u64) -> Pools
        recommends
            self.can_take(deposit_amount),
    {
        Pools {
            top_sponsor_pool: (self.top_sponsor_pool + top_sponsor_share(deposit_amount)) as u64,
            whale_pool: (self.whale_pool + whale_share(deposit_amount)) as u64,
            admin_fee_collected: (self.admin_fee_collected + admin_fee(deposit_amount)) as u64,
        }
    }

    /// Whether no balance is smaller than it was in `before`.
    pub open spec fn extends(self, before: Pools) -> bool {
        &&& before.top_sponsor_pool <= self.top_sponsor_pool
        &&& before.whale_pool <= self.whale_pool
        &&& before.admin_fee_collected <= self.admin_fee_collected
    }

    /// Creates the pools of a new deployment.
    pub fn new() -> (pools: Pools)
        ensures
            pools == Pools::empty(),
    {
        Pools { top_sponsor_pool: 0, whale_pool: 0, admin_fee_collected: 0 }
    }
}

/// Splits a deposit into the three pools: each pool takes its own share,
/// rounded down by itself.
///
/// Fails with `ErrorCode::Overflow`, and changes nothing, exactly when one
/// of the balances would no longer fit.
pub fn manage_pools(pools: &mut Pools, deposit_amount: u64) -> (r: Result<(), ErrorCode>)
    ensures
        match r {
            Ok(_) => {
                &&& old(pools).can_take(deposit_amount)
                &&& *final(pools) == old(pools).after_contribution(deposit_amount)
            },
            Err(e) => {
                &&& e == ErrorCode::Overflow
                &&& !old(pools).can_take(deposit_amount)
                &&& *final(pools) == *old(pools)
            },
        },
        final(pools).extends(*old(pools)),
{
    let top = match percentage(deposit_amount, 5, 100) {
        Ok(share) => share,
        Err(e) => { return Err(e); },
    };
    let whale = match percentage(deposit_amount, 25, 1000) {
        Ok(share) => share,
        Err(e) => { return Err(e); },
    };
    let fee = match percentage(deposit_amount, 5, 100) {
        Ok(share) => share,
        Err(e) => { return Err(e); },
    };
    let top_sponsor_pool = match accrue(pools.top_sponsor_pool, top) {
        Ok(balance) => balance,
        Err(e) => { return Err(e); },
    };
    let whale_pool = match accrue(pools.whale_pool, whale) {
        Ok(balance) => balance,
        Err(e) => { return Err(e); },
    };
    let admin_fee_collected = match accrue(pools.admin_fee_collected, fee) {
        Ok(balance) => balance,
        Err(e) => { return Err(e); },
    };
    pools.top_sponsor_pool = top_sponsor_pool;
    pools.whale_pool = whale_pool;
    pools.admin_fee_collected = admin_fee_collected;
    Ok(())
}

} // verus!
