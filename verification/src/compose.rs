//! Render composition: the pure assembly of the current state into a
//! displayable plan. Nothing here is stateful; the enabled and active
//! flags of the control bar are computed from the descriptor's boundary
//! conditions and the dialog selector, never stored separately.

use vstd::prelude::*;

use crate::dialog::{ActiveDialog, Dialog};
use crate::month::{first_of_year_representable, year_in_range, Month};
use crate::nav::{YearMonth, YearMonthAction};
use crate::settings::{Language, SettingsStore};
use crate::style::{directive_matches, project, vars_match, StyleProjection};

verus! {

/// Days of the week, for the week-header row.
#[derive(Clone, Copy, Debug, PartialEq, Eq, Structural)]
pub enum Weekday {
    Sunday,
    Monday,
    Tuesday,
    Wednesday,
    Thursday,
    Friday,
    Saturday,
}

/// Saturday and Sunday are marked as weekend in the header row.
pub open spec fn is_weekend_spec(w: Weekday) -> bool {
    w == Weekday::Saturday || w == Weekday::Sunday
}

pub fn is_weekend(w: Weekday) -> (r: bool)
    ensures
        r == is_weekend_spec(w),
{
    match w {
        Weekday::Saturday => true,
        Weekday::Sunday => true,
        _ => false,
    }
}

/// The week-header row: seven days, starting on Monday or on Sunday.
pub open spec fn week_header_spec(start_on_monday: bool) -> Seq<Weekday> {
    if start_on_monday {
        seq![
            Weekday::Monday,
            Weekday::Tuesday,
            Weekday::Wednesday,
            Weekday::Thursday,
            Weekday::Friday,
            Weekday::Saturday,
            Weekday::Sunday,
        ]
    } else {
        seq![
            Weekday::Sunday,
            Weekday::Monday,
            Weekday::Tuesday,
            Weekday::Wednesday,
            Weekday::Thursday,
            Weekday::Friday,
            Weekday::Saturday,
        ]
    }
}

pub fn week_header(start_on_monday: bool) -> (r: Vec<Weekday>)
    ensures
        r@ == week_header_spec(start_on_monday),
{
    let mut v: Vec<Weekday> = Vec::new();
    if start_on_monday {
        v.push(Weekday::Monday);
        v.push(Weekday::Tuesday);
        v.push(Weekday::Wednesday);
        v.push(Weekday::Thursday);
        v.push(Weekday::Friday);
        v.push(Weekday::Saturday);
        v.push(Weekday::Sunday);
    } else {
        v.push(Weekday::Sunday);
        v.push(Weekday::Monday);
        v.push(Weekday::Tuesday);
        v.push(Weekday::Wednesday);
        v.push(Weekday::Thursday);
        v.push(Weekday::Friday);
        v.push(Weekday::Saturday);
    }
    assert(v@ =~= week_header_spec(start_on_monday));
    v
}

/// English name of a month, as the header shows it.
pub open spec fn month_name_spec(m: Month) -> Seq<char> {
    match m {
        Month::January => "January"@,
        Month::February => "February"@,
        Month::March => "March"@,
        Month::April => "April"@,
        Month::May => "May"@,
        Month::June => "June"@,
        Month::July => "July"@,
        Month::August => "August"@,
        Month::September => "September"@,
        Month::October => "October"@,
        Month::November => "November"@,
        Month::December => "December"@,
    }
}

pub fn month_name(m: Month) -> (r: &'static str)
    ensures
        r@ == month_name_spec(m),
{
    match m {
        Month::January => "January",
        Month::February => "February",
        Month::March => "March",
        Month::April => "April",
        Month::May => "May",
        Month::June => "June",
        Month::July => "July",
        Month::August => "August",
        Month::September => "September",
        Month::October => "October",
        Month::November => "November",
        Month::December => "December",
    }
}

/// Enabled and active flags of the five stateful controls of the control
/// bar. The today and print controls are always enabled and carry no
/// state.
#[derive(Clone, Copy, Debug, PartialEq, Eq, Structural)]
pub struct ControlBar {
    pub prev_enabled: bool,
    pub next_enabled: bool,
    pub jump_active: bool,
    pub styles_active: bool,
    pub settings_active: bool,
}

/// A navigation control is enabled exactly when its step would not be
/// rejected at the year bound; a dialog toggle is active exactly when its
/// panel is the open one.
pub open spec fn control_bar_spec(ym: YearMonth, dialog: ActiveDialog) -> ControlBar {
    ControlBar {
        prev_enabled: !(ym.month == Month::January && !year_in_range(ym.year - 1)),
        next_enabled: !(ym.month == Month::December && !year_in_range(ym.year + 1)),
        jump_active: dialog.0 == Some(Dialog::Jump),
        styles_active: dialog.0 == Some(Dialog::Styles),
        settings_active: dialog.0 == Some(Dialog::Settings),
    }
}

pub fn control_bar(ym: YearMonth, dialog: ActiveDialog) -> (r: ControlBar)
    requires
        ym.wf(),
    ensures
        r == control_bar_spec(ym, dialog),
{
    let prev_enabled = if ym.month == Month::January {
        first_of_year_representable(ym.year - 1)
    } else {
        true
    };
    let next_enabled = if ym.month == Month::December {
        first_of_year_representable(ym.year + 1)
    } else {
        true
    };
    let (jump_active, styles_active, settings_active) = match dialog.0 {
        Some(Dialog::Jump) => (true, false, false),
        Some(Dialog::Styles) => (false, true, false),
        Some(Dialog::Settings) => (false, false, true),
        None => (false, false, false),
    };
    ControlBar { prev_enabled, next_enabled, jump_active, styles_active, settings_active }
}

/// A navigation control is disabled exactly when the step it would
/// dispatch is the one the reducer rejects in place: boundary rejection is
/// silent, so the control bar must prevent the dispatch on its own.
pub proof fn lemma_disabled_control_is_rejected_step(ym: YearMonth, dialog: ActiveDialog)
    requires
        ym.wf(),
    ensures
        !control_bar_spec(ym, dialog).next_enabled <==> ym.reduce_spec(YearMonthAction::NextMonth)
            == ym,
        !control_bar_spec(ym, dialog).prev_enabled <==> ym.reduce_spec(YearMonthAction::PrevMonth)
            == ym,
{
    let next = ym.reduce_spec(YearMonthAction::NextMonth);
    let prev = ym.reduce_spec(YearMonthAction::PrevMonth);
    assert(ym.month.succ_spec() != ym.month);
    assert(ym.month.pred_spec() != ym.month);
    if next == ym {
        assert(ym.month == Month::December && !year_in_range(ym.year + 1));
    }
    if prev == ym {
        assert(ym.month == Month::January && !year_in_range(ym.year - 1));
    }
}

/// Everything presentation needs for one frame, computed from the current
/// state. The month grid itself is read from the month-view cache beside
/// this plan.
pub struct RenderPlan {
    pub month_name: String,
    pub year: i32,
    pub language: Language,
    pub show_localized_month: bool,
    pub show_week_numbers: bool,
    pub enable_chinese: bool,
    pub weekdays: Vec<Weekday>,
    pub open_dialog: Option<Dialog>,
    pub control: ControlBar,
    pub style: StyleProjection,
}

/// Assemble the displayable plan for the current state: header, week
/// header, control bar, the single open dialog, and the style projection.
pub fn compose(ym: YearMonth, dialog: ActiveDialog, settings: &SettingsStore) -> (r: RenderPlan)
    requires
        ym.wf(),
    ensures
        r.month_name@ == month_name_spec(ym.month),
        r.year == ym.year,
        r.language == settings.language_spec(),
        r.show_localized_month == (settings.language_spec() != Language::English),
        r.show_week_numbers == settings.show_week_numbers,
        r.enable_chinese == settings.enable_chinese,
        r.weekdays@ == week_header_spec(settings.start_on_monday),
        r.open_dialog == dialog.0,
        r.control == control_bar_spec(ym, dialog),
        vars_match(r.style.variables@, *settings),
        r.style.font@ == settings.font@,
        directive_matches(settings.font@, r.style.import),
{
    let language = settings.language();
    let show_localized_month = match language {
        Language::English => false,
        _ => true,
    };
    RenderPlan {
        month_name: month_name(ym.month).to_owned(),
        year: ym.year,
        language,
        show_localized_month,
        show_week_numbers: settings.show_week_numbers,
        enable_chinese: settings.enable_chinese,
        weekdays: week_header(settings.start_on_monday),
        open_dialog: dialog.0,
        control: control_bar(ym, dialog),
        style: project(settings),
    }
}

} // verus!
