//! Derived month view: the calendar grid the external engine computes,
//! cached under its declared dependency tuple and recomputed only when the
//! tuple changes by value.

use vstd::prelude::*;

use crate::month::{year_in_range, Date};
use crate::nav::YearMonth;
use crate::settings::{Language, Options};

verus! {

/// The external calendar engine's month view, carried opaquely: its cells
/// are the engine's own business, and presentation walks them outside the
/// verified core.
#[verifier::external_type_specification]
#[verifier::external_body]
pub struct ExCalendar(nongli::calendar::Calendar);

/// The declared dependency tuple of the derived month view. Recomputation
/// happens exactly when a fresh tuple differs from the cached one by value,
/// field for field.
#[derive(Clone, Copy, Debug, PartialEq, Eq, Structural)]
pub struct ViewDeps {
    pub today: Date,
    pub year_month: YearMonth,
    pub options: Options,
    pub highlight_today: bool,
}

impl ViewDeps {
    pub open spec fn wf(self) -> bool {
        self.today.wf() && self.year_month.wf()
    }

    /// The highlight date handed to the engine: the sampled today, gated by
    /// the highlight flag.
    pub open spec fn gated_today(self) -> Option<Date> {
        if self.highlight_today {
            Some(self.today)
        } else {
            None
        }
    }
}

/// Name for the month view the engine computes: the result is a function
/// of the highlight date, the descriptor, and the options alone.
pub uninterp spec fn computed_view(
    today: Option<Date>,
    year_month: YearMonth,
    options: Options,
) -> Option<nongli::calendar::Calendar>;

/// Relies on nongli::calendar::Calendar::new: a pure constructor that
/// checks the first of the month through chrono and otherwise stores its
/// arguments, so it returns Some exactly when the year is in chrono's
/// range.
#[verifier::external_body]
fn compute_view(today: Option<Date>, year_month: YearMonth, options: Options) -> (r: Option<
    nongli::calendar::Calendar,
>)
    requires
        (today matches Some(d) ==> d.wf()),
    ensures
        r == computed_view(today, year_month, options),
        r is Some <==> year_in_range(year_month.year as int),
{
    let language = match options.language {
        Language::English => nongli::language::Language::English,
        Language::ChineseSimplified => nongli::language::Language::ChineseSimplified,
        Language::ChineseTraditional => nongli::language::Language::ChineseTraditional,
    };
    let engine_options = nongli::calendar::Options {
        language, enable_chinese: options.enable_chinese, start_on_monday: options.start_on_monday,
        week_number: options.week_number, color: options.color,
    };
    let month = chrono::Month::try_from(year_month.month.number()).unwrap();
    let highlight = match today {
        Some(d) => chrono::NaiveDate::from_ymd_opt(d.year, d.month.number() as u32, d.day as u32),
        None => None,
    };
    nongli::calendar::Calendar::new(year_month.year, month, highlight, engine_options)
}

/// Cache of the last month view, keyed on the dependency tuple it was
/// computed from.
pub struct MonthViewCache {
    pub key: Option<ViewDeps>,
    pub value: Option<nongli::calendar::Calendar>,
}

impl MonthViewCache {
    /// Either nothing has been computed yet, or the cached value is exactly
    /// what the engine computes from the cached tuple.
    pub open spec fn wf(self) -> bool {
        match self.key {
            Some(k) => k.wf() && self.value == computed_view(k.gated_today(), k.year_month, k.options)
                && self.value is Some,
            None => self.value is None,
        }
    }

    /// An empty cache: the first refresh always computes.
    pub fn new() -> (r: MonthViewCache)
        ensures
            r.wf(),
            r.key is None,
    {
        MonthViewCache { key: None, value: None }
    }

    /// Cache state after serving one dependency tuple.
    pub open spec fn refresh_spec(self, deps: ViewDeps) -> MonthViewCache {
        if self.key == Some(deps) {
            self
        } else {
            MonthViewCache {
                key: Some(deps),
                value: computed_view(deps.gated_today(), deps.year_month, deps.options),
            }
        }
    }

    /// Whether serving this tuple invokes the engine.
    pub open spec fn recomputes(self, deps: ViewDeps) -> bool {
        self.key != Some(deps)
    }

    /// Bring the cache up to date for one dependency tuple, invoking the
    /// external engine only if the tuple differs by value from the cached
    /// one. Afterwards the cache holds the view for exactly this tuple.
    pub fn refresh(&mut self, deps: ViewDeps) -> (recomputed: bool)
        requires
            old(self).wf(),
            deps.wf(),
        ensures
            final(self).wf(),
            *final(self) == old(self).refresh_spec(deps),
            recomputed == old(self).recomputes(deps),
            final(self).key == Some(deps),
            final(self).value is Some,
    {
        let hit = match &self.key {
            Some(k) => *k == deps,
            None => false,
        };
        if hit {
            false
        } else {
            let today = if deps.highlight_today {
                Some(deps.today)
            } else {
                None
            };
            self.value = compute_view(today, deps.year_month, deps.options);
            self.key = Some(deps);
            true
        }
    }
}

/// Serving the same dependency tuple twice invokes the engine at most
/// once: after the first refresh, a refresh with an equal tuple is a cache
/// hit and leaves the cache untouched.
pub proof fn lemma_second_refresh_is_cache_hit(c: MonthViewCache, deps: ViewDeps)
    ensures
        !c.refresh_spec(deps).recomputes(deps),
        c.refresh_spec(deps).refresh_spec(deps) == c.refresh_spec(deps),
{
}

} // verus!
