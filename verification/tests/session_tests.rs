use calendar::{
    ActiveDialog, Date, Dialog, Event, FlagKey, Month, Session, StyleKey, YearMonth,
    YearMonthAction,
};

fn fixed_today() -> Date {
    Date::new(2024, Month::February, 21)
}

#[test]
fn session_starts_on_the_sampled_date() {
    let today = fixed_today();
    let session = Session::new(today);
    assert_eq!(session.year_month, YearMonth::new(2024, Month::February));
    assert_eq!(session.dialog, ActiveDialog(None));
    assert!(session.month_cache.key.is_none());
}

#[test]
fn applied_event_runs_reducer_and_memos_together() {
    let today = fixed_today();
    let mut session = Session::new(today);
    let effects = session.apply(Event::Nav(YearMonthAction::NextMonth), today);
    assert_eq!(session.year_month, YearMonth::new(2024, Month::March));
    assert!(effects.view_recomputed);
    assert!(effects.font_recomputed);
}

#[test]
fn dialog_toggle_leaves_the_month_view_cached() {
    let today = fixed_today();
    let mut session = Session::new(today);
    session.apply(Event::Nav(YearMonthAction::NextMonth), today);
    let effects = session.apply(Event::ToggleDialog(Dialog::Jump), today);
    assert_eq!(session.dialog, ActiveDialog(Some(Dialog::Jump)));
    assert!(!effects.view_recomputed);
    assert!(!effects.font_recomputed);
}

#[test]
fn font_edit_recomputes_import_but_not_month_view() {
    let today = fixed_today();
    let mut session = Session::new(today);
    session.apply(Event::Nav(YearMonthAction::NextMonth), today);
    let effects = session.apply(
        Event::SetStyle(StyleKey::Font, "Inter, sans-serif".to_owned()),
        today,
    );
    assert!(!effects.view_recomputed);
    assert!(effects.font_recomputed);
    assert!(session
        .font_cache
        .directive
        .as_ref()
        .unwrap()
        .contains("&family=Inter"));
    let again = session.apply(
        Event::SetStyle(StyleKey::Font, "Inter, sans-serif".to_owned()),
        today,
    );
    assert!(!again.font_recomputed);
}

#[test]
fn color_edit_recomputes_neither_memo() {
    let today = fixed_today();
    let mut session = Session::new(today);
    session.apply(Event::Nav(YearMonthAction::NextMonth), today);
    let effects = session.apply(
        Event::SetStyle(StyleKey::ColorTheme, "#222222".to_owned()),
        today,
    );
    assert!(!effects.view_recomputed);
    assert!(!effects.font_recomputed);
    assert_eq!(
        session.settings.get_style(StyleKey::ColorTheme).as_str(),
        "#222222"
    );
}

#[test]
fn highlight_flag_changes_the_dependency_tuple() {
    let today = fixed_today();
    let mut session = Session::new(today);
    session.apply(Event::Nav(YearMonthAction::NextMonth), today);
    let effects = session.apply(Event::SetFlag(FlagKey::HighlightToday, false), today);
    assert!(effects.view_recomputed);
    assert_eq!(session.month_cache.value.as_ref().unwrap().today, None);
}

#[test]
fn session_navigation_end_to_end() {
    let today = fixed_today();
    let mut session = Session::new(today);
    session.apply(Event::Nav(YearMonthAction::NextMonth), today);
    assert_eq!(session.year_month, YearMonth::new(2024, Month::March));
    session.apply(Event::Nav(YearMonthAction::PrevMonth), today);
    session.apply(Event::Nav(YearMonthAction::PrevMonth), today);
    assert_eq!(session.year_month, YearMonth::new(2024, Month::January));
    let effects = session.apply(Event::Nav(YearMonthAction::SetYear(-262144)), today);
    assert_eq!(session.year_month, YearMonth::new(2024, Month::January));
    assert!(!effects.view_recomputed);
}
