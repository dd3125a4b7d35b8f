//! Calendar dates, compared lexicographically by (year, month, day).

use vstd::prelude::*;

verus! {

/// A calendar date. Ordering is lexicographic on (year, month, day), which
/// agrees with chronological order for well-formed dates.
#[derive(Clone, Copy, Debug, PartialEq, Eq, Structural)]
pub struct Date {
    pub year: u16,
    pub month: u8,
    pub day: u8,
}

impl Date {
    /// A date the renderer can print as `YYYY-MM-DD` with a valid
    /// month and day.
    pub open spec fn wf(self) -> bool {
        self.year <= 9999 && 1 <= self.month <= 12 && 1 <= self.day <= 31
    }

    pub fn new(year: u16, month: u8, day: u8) -> (r: Date)
        ensures
            r == (Date { year, month, day }),
    {
        Date { year, month, day }
    }

    /// `self` is strictly after `other` in chronological order.
    pub fn is_after(&self, other: &Date) -> (r: bool)
        ensures
            r == date_lt(*other, *self),
    {
        if self.year != other.year {
            self.year > other.year
        } else if self.month != other.month {
            self.month > other.month
        } else {
            self.day > other.day
        }
    }
}

/// Strict chronological order on dates: `a` is before `b`.
pub open spec fn date_lt(a: Date, b: Date) -> bool {
    a.year < b.year
        || (a.year == b.year && a.month < b.month)
        || (a.year == b.year && a.month == b.month && a.day < b.day)
}

/// Strict chronological order is transitive.
pub proof fn lemma_date_lt_transitive(a: Date, b: Date, c: Date)
    requires
        date_lt(a, b),
        date_lt(b, c),
    ensures
        date_lt(a, c),
{
}

} // verus!
