//! Survival status of an agent, derived from its remaining balance as a
//! percentage of its starting capital.

use vstd::prelude::*;

verus! {

/// Health label of an agent, from the share of its initial capital left.
#[derive(Clone, Copy, Debug, PartialEq, Eq, Structural, Hash)]
pub enum SurvivalStatus {
    /// At least 80% of the initial balance left (profit included).
    Thriving,
    /// From 40% up to 80%.
    Stable,
    /// From 10% up to 40%.
    Struggling,
    /// Above 0% and below 10%.
    Critical,
    /// Nothing left, or a debt.
    Bankrupt,
}

/// The status for a balance `current` out of a starting balance `initial`.
///
/// With a positive `initial` the percentage `100 * current / initial` falls
/// in exactly one of the buckets `<= 0`, `(0, 10)`, `[10, 40)`, `[40, 80)`,
/// `[80, oo)`; the comparisons are written multiplied out by `initial`.
pub open spec fn status_of(current: int, initial: int) -> SurvivalStatus {
    if initial <= 0 {
        if current <= 0 {
            SurvivalStatus::Bankrupt
        } else {
            SurvivalStatus::Thriving
        }
    } else if current <= 0 {
        SurvivalStatus::Bankrupt
    } else if 100 * current < 10 * initial {
        SurvivalStatus::Critical
    } else if 100 * current < 40 * initial {
        SurvivalStatus::Struggling
    } else if 100 * current < 80 * initial {
        SurvivalStatus::Stable
    } else {
        SurvivalStatus::Thriving
    }
}

pub open spec fn label_of(s: SurvivalStatus) -> Seq<char> {
    match s {
        SurvivalStatus::Thriving => "Thriving"@,
        SurvivalStatus::Stable => "Stable"@,
        SurvivalStatus::Struggling => "Struggling"@,
        SurvivalStatus::Critical => "Critical"@,
        SurvivalStatus::Bankrupt => "Bankrupt"@,
    }
}

pub open spec fn emoji_of(s: SurvivalStatus) -> Seq<char> {
    match s {
        SurvivalStatus::Thriving => "\u{1F31F}"@,
        SurvivalStatus::Stable => "\u{2705}"@,
        SurvivalStatus::Struggling => "\u{26A0}\u{FE0F}"@,
        SurvivalStatus::Critical => "\u{1F6A8}"@,
        SurvivalStatus::Bankrupt => "\u{1F480}"@,
    }
}

pub open spec fn ansi_color_of(s: SurvivalStatus) -> Seq<char> {
    match s {
        SurvivalStatus::Thriving => "\x1b[32m"@,
        SurvivalStatus::Stable => "\x1b[34m"@,
        SurvivalStatus::Struggling => "\x1b[33m"@,
        SurvivalStatus::Critical => "\x1b[31m"@,
        SurvivalStatus::Bankrupt => "\x1b[35m"@,
    }
}

impl SurvivalStatus {
    /// Status of an agent holding `current_balance` out of a starting
    /// `initial_balance` (both in cents).
    pub fn from_balance(current_balance: i64, initial_balance: i64) -> (r: SurvivalStatus)
        ensures
            r == status_of(current_balance as int, initial_balance as int),
    {
        if initial_balance <= 0 {
            return if current_balance <= 0 {
                SurvivalStatus::Bankrupt
            } else {
                SurvivalStatus::Thriving
            };
        }
        let current = current_balance as i128;
        let initial = initial_balance as i128;
        let scaled = 100 * current;
        if scaled <= 0 {
            SurvivalStatus::Bankrupt
        } else if scaled < 10 * initial {
            SurvivalStatus::Critical
        } else if scaled < 40 * initial {
            SurvivalStatus::Struggling
        } else if scaled < 80 * initial {
            SurvivalStatus::Stable
        } else {
            SurvivalStatus::Thriving
        }
    }

    /// True unless the agent is bankrupt.
    pub fn is_operational(&self) -> (r: bool)
        ensures
            r == (*self != SurvivalStatus::Bankrupt),
    {
        !matches!(self, SurvivalStatus::Bankrupt)
    }

    /// True for the two states that call for urgent attention.
    pub fn needs_intervention(&self) -> (r: bool)
        ensures
            r == (*self == SurvivalStatus::Critical || *self == SurvivalStatus::Bankrupt),
    {
        matches!(self, SurvivalStatus::Critical | SurvivalStatus::Bankrupt)
    }

    /// A pictogram for the status.
    pub fn emoji(&self) -> (r: &'static str)
        ensures
            r@ == emoji_of(*self),
    {
        match self {
            SurvivalStatus::Thriving => "\u{1F31F}",
            SurvivalStatus::Stable => "\u{2705}",
            SurvivalStatus::Struggling => "\u{26A0}\u{FE0F}",
            SurvivalStatus::Critical => "\u{1F6A8}",
            SurvivalStatus::Bankrupt => "\u{1F480}",
        }
    }

    /// The ANSI escape that selects the status's terminal colour.
    pub fn ansi_color(&self) -> (r: &'static str)
        ensures
            r@ == ansi_color_of(*self),
    {
        match self {
            SurvivalStatus::Thriving => "\x1b[32m",
            SurvivalStatus::Stable => "\x1b[34m",
            SurvivalStatus::Struggling => "\x1b[33m",
            SurvivalStatus::Critical => "\x1b[31m",
            SurvivalStatus::Bankrupt => "\x1b[35m",
        }
    }

    /// The status's name, as shown to people.
    pub fn to_string(&self) -> (r: String)
        ensures
            r@ == label_of(*self),
    {
        let s = match self {
            SurvivalStatus::Thriving => "Thriving",
            SurvivalStatus::Stable => "Stable",
            SurvivalStatus::Struggling => "Struggling",
            SurvivalStatus::Critical => "Critical",
            SurvivalStatus::Bankrupt => "Bankrupt",
        };
        String::from_str(s)
    }
}

impl Default for SurvivalStatus {
    fn default() -> (r: SurvivalStatus)
        ensures
            r == SurvivalStatus::Stable,
    {
        SurvivalStatus::Stable
    }
}

/// Every pair of balances with a positive initial balance gets exactly one
/// status, and its bucket is the one that the percentage lies in: the five
/// buckets meet at 0, 10, 40 and 80 percent with neither gap nor overlap.
pub proof fn lemma_buckets_partition(current: int, initial: int)
    requires
        initial > 0,
    ensures
        (status_of(current, initial) == SurvivalStatus::Bankrupt) == (100 * current <= 0),
        (status_of(current, initial) == SurvivalStatus::Critical) == (0 < 100 * current
            && 100 * current < 10 * initial),
        (status_of(current, initial) == SurvivalStatus::Struggling) == (10 * initial <= 100
            * current && 100 * current < 40 * initial),
        (status_of(current, initial) == SurvivalStatus::Stable) == (40 * initial <= 100 * current
            && 100 * current < 80 * initial),
        (status_of(current, initial) == SurvivalStatus::Thriving) == (80 * initial <= 100
            * current),
{
}

/// A positive initial balance with nothing left is bankruptcy, an untouched
/// balance is thriving, and any debt is bankruptcy.
pub proof fn lemma_status_landmarks(initial: int, debt: int)
    requires
        initial > 0,
        debt > 0,
    ensures
        status_of(0, initial) == SurvivalStatus::Bankrupt,
        status_of(initial, initial) == SurvivalStatus::Thriving,
        status_of(-debt, initial) == SurvivalStatus::Bankrupt,
{
}

} // verus!
