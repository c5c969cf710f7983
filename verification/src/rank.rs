use vstd::prelude::*;

verus! {

/// The reward tier of an investor, from lowest to highest.
#[derive(Debug, Clone, Copy, PartialEq, Eq, Structural)]
pub enum Rank {
    Starter,
    Shrimp,
    Crab,
    Octopus,
    Fish,
    Dolphin,
    Shark,
    Whale,
}

impl Rank {
    /// The position of the tier in ascending order, from 0 for `Starter` to
    /// 7 for `Whale`.
    pub open spec fn tier(self) -> nat {
        match self {
            Rank::Starter => 0,
            Rank::Shrimp => 1,
            Rank::Crab => 2,
            Rank::Octopus => 3,
            Rank::Fish => 4,
            Rank::Dolphin => 5,
            Rank::Shark => 6,
            Rank::Whale => 7,
        }
    }

    /// The name of the tier.
    pub open spec fn label_of(self) -> Seq<char> {
        match self {
            Rank::Starter => "Starter"@,
            Rank::Shrimp => "Shrimp"@,
            Rank::Crab => "Crab"@,
            Rank::Octopus => "Octopus"@,
            Rank::Fish => "Fish"@,
            Rank::Dolphin => "Dolphin"@,
            Rank::Shark => "Shark"@,
            Rank::Whale => "Whale"@,
        }
    }

    /// Returns the position of the tier in ascending order.
    pub fn ordinal(&self) -> (n: u8)
        ensures
            n == self.tier(),
    {
        match self {
            Rank::Starter => 0,
            Rank::Shrimp => 1,
            Rank::Crab => 2,
            Rank::Octopus => 3,
            Rank::Fish => 4,
            Rank::Dolphin => 5,
            Rank::Shark => 6,
            Rank::Whale => 7,
        }
    }

    /// Returns the name of the tier.
    pub fn label(&self) -> (s: &'static str)
        ensures
            s@ == self.label_of(),
    {
        match self {
            Rank::Starter => "Starter",
            Rank::Shrimp => "Shrimp",
            Rank::Crab => "Crab",
            Rank::Octopus => "Octopus",
            Rank::Fish => "Fish",
            Rank::Dolphin => "Dolphin",
            Rank::Shark => "Shark",
            Rank::Whale => "Whale",
        }
    }
}

/// The length of the longest tier name.
pub const MAX_LABEL_LEN: usize = 7;

/// No two tiers share a name, and no name is longer than `MAX_LABEL_LEN`.
pub proof fn lemma_labels_distinct(a: Rank, b: Rank)
    ensures
        a.label_of() == b.label_of() ==> a == b,
        1 <= a.label_of().len() <= MAX_LABEL_LEN,
{
    reveal_strlit("Starter");
    reveal_strlit("Shrimp");
    reveal_strlit("Crab");
    reveal_strlit("Octopus");
    reveal_strlit("Fish");
    reveal_strlit("Dolphin");
    reveal_strlit("Shark");
    reveal_strlit("Whale");
    if a.label_of() == b.label_of() {
        assert(a.label_of().len() == b.label_of().len());
        assert(a.label_of()[0] == b.label_of()[0]);
    }
}

/// Finds the tier with the given name, if there is one.
pub fn from_label(label: &str) -> (r: Option<Rank>)
    ensures
        forall|rank: Rank| r == Some(rank) <==> label@ == rank.label_of(),
{
    let owned = label.to_owned();
    let r = if owned == "Starter".to_owned() {
        Some(Rank::Starter)
    } else if owned == "Shrimp".to_owned() {
        Some(Rank::Shrimp)
    } else if owned == "Crab".to_owned() {
        Some(Rank::Crab)
    } else if owned == "Octopus".to_owned() {
        Some(Rank::Octopus)
    } else if owned == "Fish".to_owned() {
        Some(Rank::Fish)
    } else if owned == "Dolphin".to_owned() {
        Some(Rank::Dolphin)
    } else if owned == "Shark".to_owned() {
        Some(Rank::Shark)
    } else if owned == "Whale".to_owned() {
        Some(Rank::Whale)
    } else {
        None
    };
    proof {
        assert forall|rank: Rank| r == Some(rank) <==> label@ == rank.label_of() by {
            match r {
                Some(found) => {
                    assert(label@ == found.label_of());
                    lemma_labels_distinct(rank, found);
                },
                None => {},
            }
        }
    }
    r
}

/// The tier of a cumulative investment. The table has inclusive ranges, and
/// every amount that no range covers is a `Whale`.
pub open spec fn rank_of(total_investment: u64) -> Rank {
    if total_investment <= 100 {
        Rank::Starter
    } else if total_investment <= 990 {
        Rank::Shrimp
    } else if 1000 <= total_investment <= 9900 {
        Rank::Crab
    } else if 10000 <= total_investment <= 19900 {
        Rank::Octopus
    } else if 20000 <= total_investment <= 29900 {
        Rank::Fish
    } else if 30000 <= total_investment <= 49900 {
        Rank::Dolphin
    } else if 50000 <= total_investment <= 99900 {
        Rank::Shark
    } else {
        Rank::Whale
    }
}

/// Whether an amount lies strictly between two neighbouring ranges of the
/// table, below the largest amount that the table covers.
pub open spec fn in_gap(total_investment: u64) -> bool {
    ||| 991 <= total_investment <= 999
    ||| 9901 <= total_investment <= 9999
    ||| 19901 <= total_investment <= 19999
    ||| 29901 <= total_investment <= 29999
    ||| 49901 <= total_investment <= 49999
}

/// Classifies a cumulative investment into its tier.
pub fn classify(total_investment: u64) -> (r: Rank)
    ensures
        r == rank_of(total_investment),
{
    if total_investment <= 100 {
        Rank::Starter
    } else if total_investment <= 990 {
        Rank::Shrimp
    } else if total_investment >= 1000 && total_investment <= 9900 {
        Rank::Crab
    } else if total_investment >= 10000 && total_investment <= 19900 {
        Rank::Octopus
    } else if total_investment >= 20000 && total_investment <= 29900 {
        Rank::Fish
    } else if total_investment >= 30000 && total_investment <= 49900 {
        Rank::Dolphin
    } else if total_investment >= 50000 && total_investment <= 99900 {
        Rank::Shark
    } else {
        Rank::Whale
    }
}

/// Every amount in a gap of the table, and every amount above 99900, is a
/// `Whale`; no other amount is.
pub proof fn lemma_whale_amounts(total_investment: u64)
    ensures
        rank_of(total_investment) is Whale <==> in_gap(total_investment) || total_investment
            > 99900,
{
}

/// Classification never lowers the tier as the amount grows, unless the
/// smaller amount lies in a gap of the table: such an amount is a `Whale`,
/// and only another `Whale` is not below it.
pub proof fn lemma_classify_monotonic(a: u64, b: u64)
    requires
        a <= b,
        in_gap(a) ==> rank_of(b) is Whale,
    ensures
        rank_of(a).tier() <= rank_of(b).tier(),
{
}

} // verus!
