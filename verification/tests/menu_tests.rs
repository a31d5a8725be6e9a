use jesus_menu::date::{CalendarDate, Weekday, is_formal_day, iso_date};
use jesus_menu::error::MenuError;
use jesus_menu::menu::{
    dinner_url, dispatch, formal_date_url, formal_url, lunch_url, parse_command, Action, Command,
};
use jesus_menu::resolve::parse_date;

fn date(y: u32, m: u32, d: u32) -> CalendarDate {
    CalendarDate::from_ymd(y, m, d).unwrap()
}

fn expect_date(r: Result<CalendarDate, MenuError>, y: u32, m: u32, d: u32) {
    let got = r.unwrap();
    assert_eq!(got, date(y, m, d));
}

fn expect_invalid(r: Result<CalendarDate, MenuError>) {
    match r {
        Err(MenuError::InvalidDate(_)) => {}
        other => panic!("expected InvalidDate, got {:?}", other),
    }
}

#[test]
fn two_digit_day_same_month() {
    expect_date(parse_date("15", &date(2024, 3, 10)), 2024, 3, 15);
}

#[test]
fn two_digit_day_on_reference_day_keeps_month() {
    expect_date(parse_date("15", &date(2024, 3, 15)), 2024, 3, 15);
}

#[test]
fn two_digit_day_already_past_moves_to_next_month() {
    expect_date(parse_date("05", &date(2024, 3, 10)), 2024, 4, 5);
}

#[test]
fn two_digit_day_in_december_wraps_year() {
    expect_date(parse_date("05", &date(2024, 12, 20)), 2025, 1, 5);
}

#[test]
fn two_digit_day_next_month_too_short() {
    // 30 has not passed in February, but February has no 30th.
    expect_invalid(parse_date("30", &date(2024, 2, 10)));
    // 1 has passed in January; it resolves to the 1st of February.
    expect_date(parse_date("01", &date(2024, 1, 31)), 2024, 2, 1);
}

#[test]
fn month_day_keeps_reference_year_even_in_the_past() {
    expect_date(parse_date("03-15", &date(2024, 6, 10)), 2024, 3, 15);
}

#[test]
fn month_day_resolves_in_reference_year() {
    expect_date(parse_date("11-02", &date(2024, 1, 31)), 2024, 11, 2);
}

#[test]
fn month_day_with_uneven_digit_runs() {
    // Split on the single hyphen, each side read as a number.
    expect_date(parse_date("012-3", &date(2024, 6, 10)), 2024, 12, 3);
    expect_date(parse_date("1-012", &date(2024, 6, 10)), 2024, 1, 12);
}

#[test]
fn full_date_round_trips() {
    let r = parse_date("2024-03-15", &date(2024, 1, 1)).unwrap();
    assert_eq!(r.year, 2024);
    assert_eq!(r.month, 3);
    assert_eq!(r.day, 15);
}

#[test]
fn full_date_ignores_reference_date() {
    expect_date(parse_date("1999-12-31", &date(2024, 6, 10)), 1999, 12, 31);
}

#[test]
fn impossible_month_is_rejected() {
    expect_invalid(parse_date("2024-13-01", &date(2024, 6, 10)));
}

#[test]
fn non_numeric_token_is_rejected() {
    expect_invalid(parse_date("abc", &date(2024, 6, 10)));
}

#[test]
fn day_absent_from_month_is_rejected() {
    expect_invalid(parse_date("99", &date(2024, 6, 10)));
}

#[test]
fn empty_token_is_rejected() {
    expect_invalid(parse_date("", &date(2024, 6, 10)));
}

#[test]
fn wrong_length_tokens_are_rejected() {
    expect_invalid(parse_date("3-15", &date(2024, 6, 10)));
    expect_invalid(parse_date("2024-3-15", &date(2024, 6, 10)));
    expect_invalid(parse_date("015", &date(2024, 6, 10)));
}

#[test]
fn two_hyphen_token_is_rejected() {
    expect_invalid(parse_date("1-2-3", &date(2024, 6, 10)));
}

#[test]
fn hyphen_at_the_edge_is_rejected() {
    expect_invalid(parse_date("-1234", &date(2024, 6, 10)));
    expect_invalid(parse_date("1234-", &date(2024, 6, 10)));
}

#[test]
fn misplaced_separators_in_full_date_are_rejected() {
    expect_invalid(parse_date("2024/03/15", &date(2024, 6, 10)));
    expect_invalid(parse_date("20-240-315", &date(2024, 6, 10)));
}

#[test]
fn leap_day_is_accepted_only_in_leap_years() {
    expect_date(parse_date("2024-02-29", &date(2024, 1, 1)), 2024, 2, 29);
    expect_invalid(parse_date("2023-02-29", &date(2024, 1, 1)));
    expect_date(parse_date("2000-02-29", &date(2024, 1, 1)), 2000, 2, 29);
    expect_invalid(parse_date("1900-02-29", &date(2024, 1, 1)));
}

#[test]
fn construction_rejects_impossible_triples() {
    assert!(CalendarDate::from_ymd(2024, 2, 30).is_none());
    assert!(CalendarDate::from_ymd(2024, 13, 1).is_none());
    assert!(CalendarDate::from_ymd(2024, 0, 10).is_none());
    assert!(CalendarDate::from_ymd(2024, 4, 31).is_none());
    assert!(CalendarDate::from_ymd(2024, 6, 0).is_none());
    assert!(CalendarDate::from_ymd(0, 6, 10).is_none());
    assert!(CalendarDate::from_ymd(10000, 6, 10).is_none());
}

#[test]
fn week_runs_monday_to_sunday() {
    assert_eq!(date(2024, 3, 11).weekday(), Weekday::Monday);
    assert_eq!(date(2024, 3, 12).weekday(), Weekday::Tuesday);
    assert_eq!(date(2024, 3, 13).weekday(), Weekday::Wednesday);
    assert_eq!(date(2024, 3, 14).weekday(), Weekday::Thursday);
    assert_eq!(date(2024, 3, 15).weekday(), Weekday::Friday);
    assert_eq!(date(2024, 3, 16).weekday(), Weekday::Saturday);
    assert_eq!(date(2024, 3, 17).weekday(), Weekday::Sunday);
}

#[test]
fn formal_days_are_tue_wed_fri_sun() {
    assert!(!is_formal_day(&date(2024, 3, 11))); // Monday
    assert!(is_formal_day(&date(2024, 3, 12))); // Tuesday
    assert!(is_formal_day(&date(2024, 3, 13))); // Wednesday
    assert!(!is_formal_day(&date(2024, 3, 14))); // Thursday
    assert!(is_formal_day(&date(2024, 3, 15))); // Friday
    assert!(!is_formal_day(&date(2024, 3, 16))); // Saturday
    assert!(is_formal_day(&date(2024, 3, 17))); // Sunday
}

#[test]
fn iso_rendering_pads_with_zeros() {
    assert_eq!(iso_date(&date(2024, 3, 5)).as_str(), "2024-03-05");
    assert_eq!(iso_date(&date(987, 12, 31)).as_str(), "0987-12-31");
}

#[test]
fn formal_url_carries_the_date() {
    assert_eq!(
        formal_date_url(&date(2024, 3, 15)).as_str(),
        "https://apps.jesus.cam.ac.uk/foodmenuview/digiboard.php?event_id=5&date=2024-03-15"
    );
}

fn cmd(arg1: Option<&str>, arg2: Option<&str>) -> Result<Command, MenuError> {
    let a1 = arg1.map(|s| s.to_string());
    let a2 = arg2.map(|s| s.to_string());
    parse_command(a1.as_ref(), a2.as_ref())
}

#[test]
fn absent_argument_is_the_default_command() {
    assert!(matches!(cmd(None, None), Ok(Command::Default)));
}

#[test]
fn known_command_tokens_are_recognized() {
    assert!(matches!(cmd(Some("l"), None), Ok(Command::Lunch)));
    assert!(matches!(cmd(Some("d"), None), Ok(Command::Dinner)));
    assert!(matches!(cmd(Some("h"), None), Ok(Command::Help)));
    assert!(matches!(cmd(Some("help"), None), Ok(Command::Help)));
    assert!(matches!(cmd(Some("f"), None), Ok(Command::Formal(None))));
    match cmd(Some("f"), Some("03-15")) {
        Ok(Command::Formal(Some(tok))) => assert_eq!(tok, "03-15"),
        other => panic!("expected a dated formal command, got {:?}", other),
    }
}

#[test]
fn unknown_command_token_is_an_error_naming_it() {
    match cmd(Some("x"), None) {
        Err(MenuError::UnrecognizedCommand(tok)) => assert_eq!(tok, "x"),
        other => panic!("expected UnrecognizedCommand, got {:?}", other),
    }
}

fn expect_open(r: Result<Action, MenuError>, url: &str) {
    match r {
        Ok(Action::OpenUrl(u)) => assert_eq!(u, url),
        other => panic!("expected OpenUrl({}), got {:?}", url, other),
    }
}

#[test]
fn lunch_and_dinner_open_their_fixed_urls() {
    let today = date(2024, 3, 10);
    expect_open(dispatch(&Command::Lunch, &today, 9), lunch_url());
    expect_open(dispatch(&Command::Dinner, &today, 9), dinner_url());
}

#[test]
fn default_after_one_pm_is_dinner() {
    let today = date(2024, 3, 10);
    expect_open(dispatch(&Command::Default, &today, 14), dinner_url());
}

#[test]
fn default_at_one_pm_exactly_is_lunch() {
    let today = date(2024, 3, 10);
    expect_open(dispatch(&Command::Default, &today, 13), lunch_url());
    expect_open(dispatch(&Command::Default, &today, 0), lunch_url());
}

#[test]
fn bare_formal_command_opens_the_base_url() {
    let today = date(2024, 3, 10);
    expect_open(dispatch(&Command::Formal(None), &today, 9), formal_url());
}

#[test]
fn dated_formal_command_on_a_friday_opens_dated_url() {
    let today = date(2024, 3, 1);
    let c = cmd(Some("f"), Some("03-15")).unwrap();
    expect_open(
        dispatch(&c, &today, 9),
        "https://apps.jesus.cam.ac.uk/foodmenuview/digiboard.php?event_id=5&date=2024-03-15",
    );
}

#[test]
fn dated_formal_command_on_a_thursday_is_the_notice() {
    let today = date(2024, 3, 1);
    let c = cmd(Some("f"), Some("03-14")).unwrap();
    match dispatch(&c, &today, 9) {
        Ok(Action::NoFormalNotice) => {}
        other => panic!("expected the no-formal-hall notice, got {:?}", other),
    }
}

#[test]
fn dated_formal_command_with_bad_token_is_invalid_date() {
    let today = date(2024, 3, 1);
    let c = cmd(Some("f"), Some("abc")).unwrap();
    match dispatch(&c, &today, 9) {
        Err(MenuError::InvalidDate(_)) => {}
        other => panic!("expected InvalidDate, got {:?}", other),
    }
}

#[test]
fn help_command_prints_help() {
    let today = date(2024, 3, 1);
    assert!(matches!(
        dispatch(&Command::Help, &today, 9),
        Ok(Action::PrintHelp)
    ));
}

#[test]
fn fixed_texts_name_the_commands_and_the_formal_days() {
    let help = jesus_menu::menu::help_text();
    assert!(help.contains("USAGE"));
    assert!(help.contains("f YYYY-MM-DD"));
    assert!(help.contains("h, help"));
    let notice = jesus_menu::menu::no_formal_notice();
    assert_eq!(
        notice,
        "There is no formal hall on this day.\nFormal halls are only on Tuesdays, Wednesdays, Fridays, and Sundays."
    );
}

#[test]
fn error_messages_name_their_cause() {
    let e = MenuError::InvalidDate("bad".to_string());
    assert_eq!(e.message(), "Invalid date: bad");
    let e = MenuError::BrowserError("no display".to_string());
    assert_eq!(e.message(), "Browser error: no display");
    let e = MenuError::UnrecognizedCommand("x".to_string());
    assert_eq!(e.message(), "Unrecognized command: x");
}
