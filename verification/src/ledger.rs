use crate::amount::{accrue, percentage, percentage_of};
use crate::error::ErrorCode;
use crate::policy::{matching_rate, matching_rate_of, referral_rate, referral_rate_of};
use crate::pools::Pools;
use crate::rank::{classify, rank_of, Rank};
use vstd::arithmetic::power2::{
    lemma2_to64, lemma2_to64_rest, lemma_pow2_strictly_increases, lemma_pow2_unfold, pow2,
};
use vstd::prelude::*;

verus! {

/// The cap of an investor's first cycle.
pub const INITIAL_CYCLE_CAP: u64 = 100;

/// One investor's record: cumulative totals, accrued bonuses, and the state
/// of the investment cycle.
#[derive(Debug, Clone, PartialEq, Eq)]
pub struct Investor {
    pub investor_id: String,
    pub total_investment: u64,
    pub daily_bonus: u64,
    pub referral_earnings: u64,
    pub matching_bonus: u64,
    pub current_cycle: u8,
    pub investment_this_cycle: u64,
    pub cycle_cap: u64,
    pub rank: Rank,
}

/// The last cycle whose cap fits in 64 bits.
pub const LAST_CYCLE: u8 = 57;

/// The daily bonus on an investment: 1 per 100, rounded down.
pub open spec fn daily_bonus_of(investment: u64) -> int {
    percentage_of(investment as int, 1, 100)
}

/// The commission on a referred investment at a referral level.
pub open spec fn referral_commission_of(amount_invested: u64, level: u8) -> int {
    percentage_of(amount_invested as int, referral_rate_of(level) as int, 100)
}

/// The bonus matched on a referral's daily earnings at a generation.
pub open spec fn matching_bonus_of(generation: u8, daily_earnings: u64) -> int {
    percentage_of(daily_earnings as int, matching_rate_of(generation) as int, 100)
}

impl Investor {
    /// The record of an investor who has not invested yet.
    pub open spec fn fresh(investor_id: String) -> Investor {
        Investor {
            investor_id,
            total_investment: 0,
            daily_bonus: 0,
            referral_earnings: 0,
            matching_bonus: 0,
            current_cycle: 0,
            investment_this_cycle: 0,
            cycle_cap: INITIAL_CYCLE_CAP,
            rank: Rank::Starter,
        }
    }

    /// What holds of every record that the operations of this module
    /// produce from a fresh one: the cap is the initial cap doubled once for
    /// each completed cycle, the current cycle is not yet full, and the rank
    /// is the one of the total.
    pub open spec fn wf(self) -> bool {
        &&& self.cycle_cap == INITIAL_CYCLE_CAP * pow2(self.current_cycle as nat)
        &&& self.investment_this_cycle < self.cycle_cap
        &&& self.rank == rank_of(self.total_investment)
    }

    /// Whether the record belongs to the same investor as `before` and no
    /// cumulative amount, nor the cycle counter, is smaller than it was there.
    pub open spec fn extends(self, before: Investor) -> bool {
        &&& self.investor_id == before.investor_id
        &&& before.total_investment <= self.total_investment
        &&& before.daily_bonus <= self.daily_bonus
        &&& before.referral_earnings <= self.referral_earnings
        &&& before.matching_bonus <= self.matching_bonus
        &&& before.current_cycle <= self.current_cycle
    }

    /// Whether an investment of `amount` is taken: it meets the whole cap of
    /// the current cycle, and both totals, the cycle counter and the doubled
    /// cap fit in their fields.
    pub open spec fn accepts(self, amount: u64) -> bool {
        &&& amount >= self.cycle_cap
        &&& self.total_investment + amount <= u64::MAX
        &&& self.investment_this_cycle + amount <= u64::MAX
        &&& self.current_cycle < u8::MAX
        &&& self.cycle_cap * 2 <= u64::MAX
    }

    /// The record after an investment that was taken. Such an investment
    /// always completes the current cycle, once: the counter goes up by one,
    /// the next cycle starts empty with twice the cap, and the rank is that
    /// of the new total.
    pub open spec fn after_investment(self, amount: u64) -> Investor
        recommends
            self.accepts(amount),
    {
        Investor {
            total_investment: (self.total_investment + amount) as u64,
            current_cycle: (self.current_cycle + 1) as u8,
            investment_this_cycle: 0,
            cycle_cap: (self.cycle_cap * 2) as u64,
            rank: rank_of((self.total_investment + amount) as u64),
            ..self
        }
    }
}

/// In a well-formed record the cycle counter never passes `LAST_CYCLE`, so
/// the counter itself cannot overflow: the cap is what runs out first.
pub proof fn lemma_wf_cycle_bounded(investor: Investor)
    requires
        investor.wf(),
    ensures
        investor.current_cycle <= LAST_CYCLE,
        investor.cycle_cap >= INITIAL_CYCLE_CAP,
        investor.current_cycle < LAST_CYCLE ==> investor.cycle_cap * 2 <= u64::MAX,
{
    let cycle = investor.current_cycle as nat;
    lemma2_to64();
    lemma2_to64_rest();
    if cycle > 58 {
        lemma_pow2_strictly_increases(58, cycle);
    }
    if 0 < cycle {
        lemma_pow2_strictly_increases(0, cycle);
    }
    if cycle < 56 {
        lemma_pow2_strictly_increases(cycle, 56);
    }
}

/// Creates the record of a new investor and the pools of a new deployment:
/// every amount is zero, the cap is `INITIAL_CYCLE_CAP`, the rank `Starter`.
pub fn initialize(investor_id: String) -> (r: (Investor, Pools))
    ensures
        r.0 == Investor::fresh(investor_id),
        r.0.wf(),
        r.1 == Pools::empty(),
{
    proof {
        lemma2_to64();
    }
    let investor = Investor {
        investor_id,
        total_investment: 0,
        daily_bonus: 0,
        referral_earnings: 0,
        matching_bonus: 0,
        current_cycle: 0,
        investment_this_cycle: 0,
        cycle_cap: INITIAL_CYCLE_CAP,
        rank: Rank::Starter,
    };
    (investor, Pools::new())
}

/// Credits the daily bonus on `investment` to the investor.
///
/// Fails with `ErrorCode::Overflow`, and changes nothing, exactly when the
/// bonus balance would no longer fit.
pub fn daily_bonus(investor: &mut Investor, investment: u64) -> (r: Result<(), ErrorCode>)
    ensures
        match r {
            Ok(_) => {
                &&& old(investor).daily_bonus + daily_bonus_of(investment) <= u64::MAX
                &&& *final(investor) == (Investor {
                    daily_bonus: (old(investor).daily_bonus + daily_bonus_of(investment)) as u64,
                    ..*old(investor)
                })
            },
            Err(e) => {
                &&& e == ErrorCode::Overflow
                &&& old(investor).daily_bonus + daily_bonus_of(investment) > u64::MAX
                &&& *final(investor) == *old(investor)
            },
        },
        final(investor).extends(*old(investor)),
        old(investor).wf() ==> final(investor).wf(),
{
    let bonus = match percentage(investment, 1, 100) {
        Ok(bonus) => bonus,
        Err(e) => { return Err(e); },
    };
    let balance = match accrue(investor.daily_bonus, bonus) {
        Ok(balance) => balance,
        Err(e) => { return Err(e); },
    };
    investor.daily_bonus = balance;
    Ok(())
}

/// Credits the commission on a referred investment to the investor, at the
/// rate of the referral level.
///
/// Fails with `ErrorCode::Overflow`, and changes nothing, exactly when the
/// referral earnings would no longer fit.
pub fn direct_referral_commission(investor: &mut Investor, amount_invested: u64, level: u8) -> (r:
    Result<(), ErrorCode>)
    ensures
        match r {
            Ok(_) => {
                &&& old(investor).referral_earnings + referral_commission_of(amount_invested, level)
                    <= u64::MAX
                &&& *final(investor) == (Investor {
                    referral_earnings: (old(investor).referral_earnings + referral_commission_of(
                        amount_invested,
                        level,
                    )) as u64,
                    ..*old(investor)
                })
            },
            Err(e) => {
                &&& e == ErrorCode::Overflow
                &&& old(investor).referral_earnings + referral_commission_of(amount_invested, level)
                    > u64::MAX
                &&& *final(investor) == *old(investor)
            },
        },
        final(investor).extends(*old(investor)),
        old(investor).wf() ==> final(investor).wf(),
{
    let commission = match percentage(amount_invested, referral_rate(level), 100) {
        Ok(commission) => commission,
        Err(e) => { return Err(e); },
    };
    let balance = match accrue(investor.referral_earnings, commission) {
        Ok(balance) => balance,
        Err(e) => { return Err(e); },
    };
    investor.referral_earnings = balance;
    Ok(())
}

/// Credits the bonus matched on a referral's daily earnings to the
/// investor, at the rate of the generation. A generation without a rate
/// credits nothing and is no error.
///
/// Fails with `ErrorCode::Overflow`, and changes nothing, exactly when the
/// matching bonus would no longer fit.
pub fn daily_matching_bonus(investor: &mut Investor, generation: u8, daily_earnings: u64) -> (r:
    Result<(), ErrorCode>)
    ensures
        match r {
            Ok(_) => {
                &&& old(investor).matching_bonus + matching_bonus_of(generation, daily_earnings)
                    <= u64::MAX
                &&& *final(investor) == (Investor {
                    matching_bonus: (old(investor).matching_bonus + matching_bonus_of(
                        generation,
                        daily_earnings,
                    )) as u64,
                    ..*old(investor)
                })
            },
            Err(e) => {
                &&& e == ErrorCode::Overflow
                &&& old(investor).matching_bonus + matching_bonus_of(generation, daily_earnings)
                    > u64::MAX
                &&& *final(investor) == *old(investor)
            },
        },
        final(investor).extends(*old(investor)),
        old(investor).wf() ==> final(investor).wf(),
{
    let bonus = match percentage(daily_earnings, matching_rate(generation), 100) {
        Ok(bonus) => bonus,
        Err(e) => { return Err(e); },
    };
    let balance = match accrue(investor.matching_bonus, bonus) {
        Ok(balance) => balance,
        Err(e) => { return Err(e); },
    };
    investor.matching_bonus = balance;
    Ok(())
}

/// Sets the investor's rank to the one of the total investment.
pub fn update_rank(investor: &mut Investor)
    ensures
        *final(investor) == (Investor {
            rank: rank_of(old(investor).total_investment),
            ..*old(investor)
        }),
{
    investor.rank = classify(investor.total_investment);
}

/// Records a new investment.
///
/// The amount must meet the whole cap of the current cycle, however much
/// of the cycle is already filled; a smaller one fails with
/// `ErrorCode::InvestmentBelowMinimum`. An amount that meets the cap fails
/// with `ErrorCode::Overflow` when a total, the cycle counter or the doubled
/// cap would no longer fit. A failure changes nothing. Otherwise the record
/// becomes `after_investment`: the cycle completes exactly once, whatever
/// the amount.
pub fn new_investment(investor: &mut Investor, amount: u64) -> (r: Result<(), ErrorCode>)
    ensures
        match r {
            Ok(_) => {
                &&& old(investor).accepts(amount)
                &&& *final(investor) == old(investor).after_investment(amount)
            },
            Err(e) => {
                &&& !old(investor).accepts(amount)
                &&& *final(investor) == *old(investor)
                &&& amount < old(investor).cycle_cap ==> e == ErrorCode::InvestmentBelowMinimum
                &&& amount >= old(investor).cycle_cap ==> e == ErrorCode::Overflow
            },
        },
        final(investor).extends(*old(investor)),
        old(investor).wf() ==> final(investor).wf(),
        r is Ok ==> final(investor).rank == rank_of(final(investor).total_investment),
        r is Ok && old(investor).cycle_cap > 0 ==> final(investor).investment_this_cycle
            < final(investor).cycle_cap,
{
    if amount < investor.cycle_cap {
        return Err(ErrorCode::InvestmentBelowMinimum);
    }
    let total_investment = match accrue(investor.total_investment, amount) {
        Ok(total) => total,
        Err(e) => { return Err(e); },
    };
    let mut investment_this_cycle = match accrue(investor.investment_this_cycle, amount) {
        Ok(total) => total,
        Err(e) => { return Err(e); },
    };
    let mut current_cycle: u8 = investor.current_cycle;
    let mut cycle_cap: u64 = investor.cycle_cap;
    if investment_this_cycle >= cycle_cap {
        if current_cycle == u8::MAX || cycle_cap > u64::MAX / 2 {
            return Err(ErrorCode::Overflow);
        }
        proof {
            lemma_pow2_unfold((current_cycle + 1) as nat);
        }
        current_cycle = current_cycle + 1;
        investment_this_cycle = 0;
        cycle_cap = cycle_cap * 2;
    }
    investor.total_investment = total_investment;
    investor.investment_this_cycle = investment_this_cycle;
    investor.current_cycle = current_cycle;
    investor.cycle_cap = cycle_cap;
    update_rank(investor);
    Ok(())
}

} // verus!
