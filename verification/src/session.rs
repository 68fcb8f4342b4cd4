//! The state owner of one display session: every cell of view state in
//! one place, with one entry point that applies a user event in full —
//! reducer first, then both dependency-tracked recomputations — before
//! the next event is looked at.

use vstd::prelude::*;

use crate::dialog::{ActiveDialog, Dialog};
use crate::month::Date;
use crate::month_view::{MonthViewCache, ViewDeps};
use crate::nav::{YearMonth, YearMonthAction};
use crate::settings::{
    flag_written, flags_equal, style_written, styles_equal, FlagKey, SettingsStore, StyleKey,
};
use crate::style::{directive_matches, FontImportCache};

verus! {

/// One discrete user interaction: a navigation action, a dialog toggle,
/// or a write to one settings cell.
pub enum Event {
    Nav(YearMonthAction),
    ToggleDialog(Dialog),
    SetStyle(StyleKey, String),
    SetFlag(FlagKey, bool),
    SetLanguage(u32),
}

impl Event {
    /// The payload obligations of the wrapped navigation action; other
    /// events carry none.
    pub open spec fn wf(self) -> bool {
        match self {
            Event::Nav(action) => action.wf(),
            _ => true,
        }
    }
}

/// What one applied event caused downstream: whether each memoized
/// computation actually re-ran.
#[derive(Clone, Copy, Debug, PartialEq, Eq, Structural)]
pub struct AppliedEffects {
    pub view_recomputed: bool,
    pub font_recomputed: bool,
}

/// All state of one display session, owned exclusively by this value:
/// the two reducer states, the settings store, and the two memoization
/// caches. All mutation goes through `apply`.
pub struct Session {
    pub year_month: YearMonth,
    pub dialog: ActiveDialog,
    pub settings: SettingsStore,
    pub month_cache: MonthViewCache,
    pub font_cache: FontImportCache,
}

impl Session {
    pub open spec fn wf(self) -> bool {
        &&& self.year_month.wf()
        &&& self.month_cache.wf()
        &&& self.font_cache.wf()
    }

    /// The dependency tuple the month view has under this state, for a
    /// given sampled today.
    pub open spec fn deps_spec(self, today: Date) -> ViewDeps {
        ViewDeps {
            today,
            year_month: self.year_month,
            options: self.settings.options_spec(),
            highlight_today: self.settings.highlight_today,
        }
    }

    /// A fresh session, started on the sampled current date with default
    /// settings, no open dialog, and cold caches.
    pub fn new(today: Date) -> (r: Session)
        requires
            today.wf(),
        ensures
            r.wf(),
            r.year_month == (YearMonth { year: today.year, month: today.month }),
            r.dialog == ActiveDialog(None::<Dialog>),
            forall|k: StyleKey| #[trigger]
                r.settings.style(k) == crate::settings::default_style(k),
            forall|k: FlagKey| #[trigger] r.settings.flag(k) == crate::settings::default_flag(k),
            r.settings.language_index == 0,
            r.month_cache.key is None,
            r.font_cache.key is None,
    {
        Session {
            year_month: YearMonth { year: today.year, month: today.month },
            dialog: ActiveDialog::new(),
            settings: SettingsStore::new(),
            month_cache: MonthViewCache::new(),
            font_cache: FontImportCache::new(),
        }
    }

    /// Apply one event in full: run the reducer or setter it names, then
    /// bring both memoized computations up to date for the new state.
    /// Each memo re-runs only if its dependency changed by value; the
    /// returned effects say which did.
    pub fn apply(&mut self, event: Event, today: Date) -> (effects: AppliedEffects)
        requires
            old(self).wf(),
            event.wf(),
            today.wf(),
        ensures
            final(self).wf(),
            // The reducers: exactly the named transition, nothing else.
            final(self).year_month == (match event {
                Event::Nav(action) => old(self).year_month.reduce_spec(action),
                _ => old(self).year_month,
            }),
            final(self).dialog == (match event {
                Event::ToggleDialog(d) => old(self).dialog.reduce_spec(d),
                _ => old(self).dialog,
            }),
            // The settings cells: the named cell takes the written value
            // and every other cell keeps its own.
            event matches Event::SetStyle(key, value) ==> style_written(
                old(self).settings,
                final(self).settings,
                key,
                value@,
            ) && flags_equal(old(self).settings, final(self).settings)
                && final(self).settings.language_index == old(self).settings.language_index,
            event matches Event::SetFlag(key, value) ==> flag_written(
                old(self).settings,
                final(self).settings,
                key,
                value,
            ) && styles_equal(old(self).settings, final(self).settings)
                && final(self).settings.language_index == old(self).settings.language_index,
            event matches Event::SetLanguage(index) ==> final(self).settings.language_index
                == index && styles_equal(old(self).settings, final(self).settings) && flags_equal(
                old(self).settings,
                final(self).settings,
            ),
            (event is Nav || event is ToggleDialog) ==> final(self).settings == old(self).settings,
            // The month view memo: refreshed for the new state, re-run
            // exactly when the dependency tuple changed by value.
            final(self).month_cache == old(self).month_cache.refresh_spec(
                final(self).deps_spec(today),
            ),
            effects.view_recomputed == old(self).month_cache.recomputes(
                final(self).deps_spec(today),
            ),
            final(self).month_cache.key == Some(final(self).deps_spec(today)),
            final(self).month_cache.value is Some,
            // The font-import memo: refreshed for the new font text.
            effects.font_recomputed == !old(self).font_cache.hits(
                final(self).settings.style(StyleKey::Font),
            ),
            final(self).font_cache.hits(final(self).settings.style(StyleKey::Font)),
            directive_matches(
                final(self).settings.style(StyleKey::Font),
                final(self).font_cache.directive,
            ),
    {
        match event {
            Event::Nav(action) => {
                self.year_month = self.year_month.reduce(action);
            },
            Event::ToggleDialog(d) => {
                self.dialog = self.dialog.reduce(d);
            },
            Event::SetStyle(key, value) => self.settings.set_style(key, value),
            Event::SetFlag(key, value) => self.settings.set_flag(key, value),
            Event::SetLanguage(index) => self.settings.set_language_index(index),
        }
        let deps = ViewDeps {
            today,
            year_month: self.year_month,
            options: self.settings.options(),
            highlight_today: self.settings.highlight_today,
        };
        let view_recomputed = self.month_cache.refresh(deps);
        let font_recomputed = self.font_cache.refresh(
            self.settings.get_style(StyleKey::Font).as_str(),
        );
        AppliedEffects { view_recomputed, font_recomputed }
    }
}

} // verus!
