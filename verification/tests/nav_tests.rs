use calendar::{ActiveDialog, Date, Dialog, Month, YearMonth, YearMonthAction};

#[test]
fn next_month_within_year() {
    let s = YearMonth::new(2024, Month::February);
    let s2 = s.reduce(YearMonthAction::NextMonth);
    assert_eq!(s2, YearMonth::new(2024, Month::March));
}

#[test]
fn next_month_across_year_boundary() {
    let s = YearMonth::new(2023, Month::December);
    let s2 = s.reduce(YearMonthAction::NextMonth);
    assert_eq!(s2, YearMonth::new(2024, Month::January));
}

#[test]
fn next_month_rejected_at_upper_bound() {
    let s = YearMonth::new(262142, Month::December);
    let s2 = s.reduce(YearMonthAction::NextMonth);
    assert_eq!(s2, s);
}

#[test]
fn prev_month_within_year() {
    let s = YearMonth::new(2024, Month::March);
    let s2 = s.reduce(YearMonthAction::PrevMonth);
    assert_eq!(s2, YearMonth::new(2024, Month::February));
}

#[test]
fn prev_month_across_year_boundary() {
    let s = YearMonth::new(2024, Month::January);
    let s2 = s.reduce(YearMonthAction::PrevMonth);
    assert_eq!(s2, YearMonth::new(2023, Month::December));
}

#[test]
fn prev_month_rejected_at_lower_bound() {
    let s = YearMonth::new(-262143, Month::January);
    let s2 = s.reduce(YearMonthAction::PrevMonth);
    assert_eq!(s2, s);
}

#[test]
fn next_then_prev_round_trip() {
    for &(year, month) in &[
        (2024, Month::February),
        (2023, Month::December),
        (0, Month::June),
        (-262143, Month::January),
    ] {
        let s = YearMonth::new(year, month);
        let back = s
            .reduce(YearMonthAction::NextMonth)
            .reduce(YearMonthAction::PrevMonth);
        assert_eq!(back, s);
    }
}

#[test]
fn today_replaces_state_with_sampled_date() {
    let s = YearMonth::new(1999, Month::April);
    let s2 = s.reduce(YearMonthAction::Today(Date::new(2025, Month::June, 15)));
    assert_eq!(s2, YearMonth::new(2025, Month::June));
}

#[test]
fn set_exact_replaces_unconditionally() {
    let s = YearMonth::new(2024, Month::February);
    let s2 = s.reduce(YearMonthAction::SetExact(1980, Month::October));
    assert_eq!(s2, YearMonth::new(1980, Month::October));
}

#[test]
fn set_year_valid_keeps_month() {
    let s = YearMonth::new(2024, Month::May);
    let s2 = s.reduce(YearMonthAction::SetYear(1999));
    assert_eq!(s2, YearMonth::new(1999, Month::May));
}

#[test]
fn set_year_out_of_range_is_rejected() {
    let s = YearMonth::new(2024, Month::May);
    assert_eq!(s.reduce(YearMonthAction::SetYear(262143)), s);
    assert_eq!(s.reduce(YearMonthAction::SetYear(-262144)), s);
}

#[test]
fn set_year_accepts_the_bounds() {
    let s = YearMonth::new(2024, Month::May);
    assert_eq!(
        s.reduce(YearMonthAction::SetYear(262142)),
        YearMonth::new(262142, Month::May)
    );
    assert_eq!(
        s.reduce(YearMonthAction::SetYear(-262143)),
        YearMonth::new(-262143, Month::May)
    );
}

#[test]
fn set_month_replaces_month_only() {
    let s = YearMonth::new(2024, Month::May);
    let s2 = s.reduce(YearMonthAction::SetMonth(Month::December));
    assert_eq!(s2, YearMonth::new(2024, Month::December));
}

#[test]
fn end_to_end_navigation() {
    let mut s = YearMonth::new(2024, Month::February);
    s = s.reduce(YearMonthAction::NextMonth);
    assert_eq!(s, YearMonth::new(2024, Month::March));
    s = s.reduce(YearMonthAction::PrevMonth);
    s = s.reduce(YearMonthAction::PrevMonth);
    assert_eq!(s, YearMonth::new(2024, Month::January));
    s = s.reduce(YearMonthAction::SetYear(-262144));
    assert_eq!(s, YearMonth::new(2024, Month::January));
}

#[test]
fn month_numbers_round_trip() {
    let months = [
        Month::January,
        Month::February,
        Month::March,
        Month::April,
        Month::May,
        Month::June,
        Month::July,
        Month::August,
        Month::September,
        Month::October,
        Month::November,
        Month::December,
    ];
    for (i, &m) in months.iter().enumerate() {
        assert_eq!(m.number(), (i + 1) as u8);
        assert_eq!(Month::from_number(m.number()), Some(m));
        assert_eq!(m.succ().pred(), m);
    }
    assert_eq!(Month::from_number(0), None);
    assert_eq!(Month::from_number(13), None);
    assert_eq!(Month::December.succ(), Month::January);
    assert_eq!(Month::January.pred(), Month::December);
}

#[test]
fn toggle_same_panel_twice_returns_to_start() {
    let closed = ActiveDialog::new();
    assert_eq!(closed.reduce(Dialog::Jump).reduce(Dialog::Jump), closed);
    let open_jump = ActiveDialog(Some(Dialog::Jump));
    assert_eq!(open_jump.reduce(Dialog::Jump).reduce(Dialog::Jump), open_jump);
}

#[test]
fn toggle_replaces_open_panel() {
    let s = ActiveDialog::new();
    let s2 = s.reduce(Dialog::Jump).reduce(Dialog::Styles);
    assert_eq!(s2, ActiveDialog(Some(Dialog::Styles)));
}

#[test]
fn toggle_open_panel_closes_it() {
    let s = ActiveDialog(Some(Dialog::Settings));
    assert_eq!(s.reduce(Dialog::Settings), ActiveDialog(None));
    assert_eq!(s.reduce(Dialog::Styles), ActiveDialog(Some(Dialog::Styles)));
}
