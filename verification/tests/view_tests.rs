use calendar::compose::{compose, control_bar, is_weekend, month_name, week_header, Weekday};
use calendar::{
    ActiveDialog, Date, Dialog, FlagKey, Language, Month, MonthViewCache, SettingsStore, ViewDeps,
    YearMonth,
};

fn deps(year: i32, month: Month, settings: &SettingsStore) -> ViewDeps {
    ViewDeps {
        today: Date::new(2024, Month::February, 21),
        year_month: YearMonth::new(year, month),
        options: settings.options(),
        highlight_today: settings.highlight_today,
    }
}

#[test]
fn same_tuple_twice_computes_once() {
    let settings = SettingsStore::new();
    let mut cache = MonthViewCache::new();
    let d = deps(2024, Month::February, &settings);
    let mut invocations: u32 = 0;
    if cache.refresh(d) {
        invocations += 1;
    }
    if cache.refresh(d) {
        invocations += 1;
    }
    assert_eq!(invocations, 1);
}

#[test]
fn changed_tuple_recomputes() {
    let settings = SettingsStore::new();
    let mut cache = MonthViewCache::new();
    assert!(cache.refresh(deps(2024, Month::February, &settings)));
    assert!(cache.refresh(deps(2024, Month::March, &settings)));
    assert!(!cache.refresh(deps(2024, Month::March, &settings)));
}

#[test]
fn options_participate_in_the_dependency_tuple() {
    let mut settings = SettingsStore::new();
    let mut cache = MonthViewCache::new();
    assert!(cache.refresh(deps(2024, Month::February, &settings)));
    settings.set_flag(FlagKey::StartOnMonday, true);
    assert!(cache.refresh(deps(2024, Month::February, &settings)));
    settings.set_flag(FlagKey::HighlightToday, false);
    assert!(cache.refresh(deps(2024, Month::February, &settings)));
    assert!(!cache.refresh(deps(2024, Month::February, &settings)));
}

#[test]
fn cached_view_is_the_engine_result_for_the_tuple() {
    let settings = SettingsStore::new();
    let mut cache = MonthViewCache::new();
    cache.refresh(deps(2024, Month::February, &settings));
    let view = cache.value.as_ref().expect("the year is in range");
    assert_eq!(view.year(), 2024);
    assert_eq!(view.month, chrono::Month::February);
    assert_eq!(view.today, chrono::NaiveDate::from_ymd_opt(2024, 2, 21));
}

#[test]
fn highlight_flag_gates_the_today_date() {
    let mut settings = SettingsStore::new();
    settings.set_flag(FlagKey::HighlightToday, false);
    let mut cache = MonthViewCache::new();
    cache.refresh(deps(2024, Month::February, &settings));
    let view = cache.value.as_ref().unwrap();
    assert_eq!(view.today, None);
}

#[test]
fn cached_view_rows_cover_the_month() {
    let settings = SettingsStore::new();
    let mut cache = MonthViewCache::new();
    cache.refresh(deps(2024, Month::February, &settings));
    let view = cache.value.as_ref().unwrap();
    let mut days: u32 = 0;
    for (_, row) in view.iter() {
        for cell in row.into_iter().flatten() {
            days += 1;
            let _ = cell.date;
        }
    }
    // 2024 is a leap year.
    assert_eq!(days, 29);
}

#[test]
fn settings_defaults_match_startup() {
    let settings = SettingsStore::new();
    assert_eq!(settings.language_index, 0);
    assert_eq!(settings.language(), Language::English);
    assert!(!settings.enable_chinese);
    assert!(!settings.start_on_monday);
    assert!(!settings.show_week_numbers);
    assert!(settings.highlight_today);
    assert_eq!(settings.get_style(calendar::StyleKey::Font).as_str(), "sans-serif");
}

#[test]
fn language_index_falls_back_to_english() {
    let mut settings = SettingsStore::new();
    settings.set_language_index(1);
    assert_eq!(settings.language(), Language::ChineseSimplified);
    settings.set_language_index(2);
    assert_eq!(settings.language(), Language::ChineseTraditional);
    settings.set_language_index(7);
    assert_eq!(settings.language(), Language::English);
}

#[test]
fn flags_are_independent_cells() {
    let mut settings = SettingsStore::new();
    settings.set_flag(FlagKey::EnableChinese, true);
    assert!(settings.enable_chinese);
    assert!(!settings.start_on_monday);
    assert!(!settings.show_week_numbers);
    assert!(settings.highlight_today);
    let options = settings.options();
    assert!(options.enable_chinese);
    assert!(!options.week_number);
    assert!(!options.color);
}

#[test]
fn control_bar_disables_prev_at_lower_bound() {
    let bar = control_bar(
        YearMonth::new(-262143, Month::January),
        ActiveDialog::new(),
    );
    assert!(!bar.prev_enabled);
    assert!(bar.next_enabled);
}

#[test]
fn control_bar_disables_next_at_upper_bound() {
    let bar = control_bar(
        YearMonth::new(262142, Month::December),
        ActiveDialog::new(),
    );
    assert!(bar.prev_enabled);
    assert!(!bar.next_enabled);
}

#[test]
fn control_bar_marks_the_open_dialog() {
    let bar = control_bar(
        YearMonth::new(2024, Month::June),
        ActiveDialog(Some(Dialog::Styles)),
    );
    assert!(bar.prev_enabled && bar.next_enabled);
    assert!(!bar.jump_active);
    assert!(bar.styles_active);
    assert!(!bar.settings_active);
}

#[test]
fn week_header_starts_on_the_chosen_day() {
    let sunday_first = week_header(false);
    assert_eq!(sunday_first[0], Weekday::Sunday);
    assert_eq!(sunday_first[6], Weekday::Saturday);
    let monday_first = week_header(true);
    assert_eq!(monday_first[0], Weekday::Monday);
    assert_eq!(monday_first[6], Weekday::Sunday);
    assert_eq!(sunday_first.len(), 7);
    assert_eq!(monday_first.len(), 7);
}

#[test]
fn weekend_days_are_saturday_and_sunday() {
    assert!(is_weekend(Weekday::Saturday));
    assert!(is_weekend(Weekday::Sunday));
    assert!(!is_weekend(Weekday::Monday));
    assert!(!is_weekend(Weekday::Friday));
}

#[test]
fn compose_assembles_the_frame() {
    let mut settings = SettingsStore::new();
    settings.set_language_index(1);
    settings.set_flag(FlagKey::ShowWeekNumbers, true);
    let plan = compose(
        YearMonth::new(2024, Month::March),
        ActiveDialog(Some(Dialog::Jump)),
        &settings,
    );
    assert_eq!(plan.month_name, "March");
    assert_eq!(plan.year, 2024);
    assert_eq!(plan.language, Language::ChineseSimplified);
    assert!(plan.show_localized_month);
    assert!(plan.show_week_numbers);
    assert_eq!(plan.open_dialog, Some(Dialog::Jump));
    assert!(plan.control.jump_active);
    assert_eq!(plan.weekdays[0], Weekday::Sunday);
    assert_eq!(plan.style.variables.len(), 19);
}

#[test]
fn month_names_match_the_header() {
    assert_eq!(month_name(Month::January), "January");
    assert_eq!(month_name(Month::September), "September");
    assert_eq!(month_name(Month::December), "December");
}
