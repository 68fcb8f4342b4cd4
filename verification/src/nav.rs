//! Navigation reducer: the (year, month) descriptor and its pure
//! state-transition function.
//!
//! Transitions that would leave the supported year range are rejected in
//! place: the reducer returns its input unchanged and surfaces no error.

use vstd::prelude::*;

use crate::month::{first_of_year_representable, year_in_range, Date, Month};

verus! {

/// The navigable unit of calendar state: a (year, month) pair.
#[derive(Clone, Copy, Debug, PartialEq, Eq, Structural)]
pub struct YearMonth {
    pub year: i32,
    pub month: Month,
}

/// Discrete actions the navigation reducer accepts. `Today` carries the
/// descriptor of the current real-world date, sampled by the caller at
/// dispatch time so that tests can supply a fixed clock.
#[derive(Clone, Copy, Debug, PartialEq, Eq, Structural)]
pub enum YearMonthAction {
    NextMonth,
    PrevMonth,
    Today(Date),
    SetExact(i32, Month),
    SetYear(i32),
    SetMonth(Month),
}

impl YearMonthAction {
    /// Payload obligations on actions: `Today` carries a real sampled date
    /// and `SetExact` is the unchecked replacement whose caller guarantees a
    /// usable year.
    pub open spec fn wf(self) -> bool {
        match self {
            YearMonthAction::Today(d) => d.wf(),
            YearMonthAction::SetExact(year, _) => year_in_range(year as int),
            _ => true,
        }
    }
}

impl YearMonth {
    /// The year lies in the range the date backend supports.
    pub open spec fn wf(self) -> bool {
        year_in_range(self.year as int)
    }

    pub fn new(year: i32, month: Month) -> (r: YearMonth)
        ensures
            r == (YearMonth { year, month }),
    {
        YearMonth { year, month }
    }

    /// Value of the descriptor after applying one action.
    pub open spec fn reduce_spec(self, action: YearMonthAction) -> YearMonth {
        match action {
            YearMonthAction::NextMonth => {
                if self.month == Month::December {
                    if year_in_range(self.year + 1) {
                        YearMonth { year: (self.year + 1) as i32, month: Month::January }
                    } else {
                        self
                    }
                } else {
                    YearMonth { year: self.year, month: self.month.succ_spec() }
                }
            },
            YearMonthAction::PrevMonth => {
                if self.month == Month::January {
                    if year_in_range(self.year - 1) {
                        YearMonth { year: (self.year - 1) as i32, month: Month::December }
                    } else {
                        self
                    }
                } else {
                    YearMonth { year: self.year, month: self.month.pred_spec() }
                }
            },
            YearMonthAction::Today(d) => YearMonth { year: d.year, month: d.month },
            YearMonthAction::SetExact(year, month) => YearMonth { year, month },
            YearMonthAction::SetYear(year) => {
                if year_in_range(year as int) {
                    YearMonth { year, month: self.month }
                } else {
                    self
                }
            },
            YearMonthAction::SetMonth(month) => YearMonth { year: self.year, month },
        }
    }

    /// Apply one navigation action. Total and non-failing: an action whose
    /// result would leave the supported year range returns the input
    /// unchanged.
    pub fn reduce(self, action: YearMonthAction) -> (r: YearMonth)
        requires
            self.wf(),
            action.wf(),
        ensures
            r == self.reduce_spec(action),
            r.wf(),
    {
        match action {
            YearMonthAction::NextMonth => {
                if self.month == Month::December {
                    // self.wf() bounds the year, so the increment cannot
                    // overflow the machine integer.
                    let next_year = self.year + 1;
                    if first_of_year_representable(next_year) {
                        YearMonth { year: next_year, month: Month::January }
                    } else {
                        self
                    }
                } else {
                    YearMonth { year: self.year, month: self.month.succ() }
                }
            },
            YearMonthAction::PrevMonth => {
                if self.month == Month::January {
                    let prev_year = self.year - 1;
                    if first_of_year_representable(prev_year) {
                        YearMonth { year: prev_year, month: Month::December }
                    } else {
                        self
                    }
                } else {
                    YearMonth { year: self.year, month: self.month.pred() }
                }
            },
            YearMonthAction::Today(d) => YearMonth { year: d.year, month: d.month },
            YearMonthAction::SetExact(year, month) => YearMonth { year, month },
            YearMonthAction::SetYear(year) => {
                if first_of_year_representable(year) {
                    YearMonth { year, month: self.month }
                } else {
                    self
                }
            },
            YearMonthAction::SetMonth(month) => YearMonth { year: self.year, month },
        }
    }
}

/// Stepping forward one month and then back returns the starting
/// descriptor, provided the forward step is not rejected at the upper year
/// bound. (When the forward step is rejected, it alone leaves the state
/// unchanged; see `lemma_rejected_next_is_identity`.)
pub proof fn lemma_next_then_prev_round_trip(s: YearMonth)
    requires
        s.wf(),
        !(s.month == Month::December && !year_in_range(s.year + 1)),
    ensures
        s.reduce_spec(YearMonthAction::NextMonth).reduce_spec(YearMonthAction::PrevMonth) == s,
{
}

/// A forward step that the year bound rejects is a no-op.
pub proof fn lemma_rejected_next_is_identity(s: YearMonth)
    requires
        s.month == Month::December && !year_in_range(s.year + 1),
    ensures
        s.reduce_spec(YearMonthAction::NextMonth) == s,
{
}

/// The three cases of `NextMonth`: within a year the month advances and the
/// year is kept; from December the year advances to January when the next
/// year is supported, and otherwise the descriptor is unchanged.
pub proof fn lemma_next_month_cases(s: YearMonth)
    requires
        s.wf(),
    ensures
        s.month != Month::December ==> s.reduce_spec(YearMonthAction::NextMonth) == (YearMonth {
            year: s.year,
            month: s.month.succ_spec(),
        }),
        s.month == Month::December && year_in_range(s.year + 1) ==> s.reduce_spec(
            YearMonthAction::NextMonth,
        ) == (YearMonth { year: (s.year + 1) as i32, month: Month::January }),
        s.month == Month::December && !year_in_range(s.year + 1) ==> s.reduce_spec(
            YearMonthAction::NextMonth,
        ) == s,
{
}

} // verus!
