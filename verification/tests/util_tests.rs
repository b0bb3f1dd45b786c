use ferris::commons::util;

#[test]
fn find_diff_between_old_and_new() {
    let old = vec![String::from("1"), String::from("2"), String::from("3"), String::from("4")];
    let new = vec![String::from("1"), String::from("4")];
    let diff = util::find_diff(old, new);
    assert_eq!(vec![String::from("2"), String::from("3")], diff);
}

#[test]
fn should_be_in_past() {
    let start_time = "2020-08-27T06:53:09Z";
    assert_eq!(true, util::is_in_past(util::as_date(start_time), util::now()));
}

#[test]
fn should_handle_pure_date() {
    let start_date = "2020-08-25T10:45:07Z";
    println!("{:?}", util::as_end_date(start_date));
}

#[test]
fn should_hash_and_verify_hashed_password() {
    let hashed = util::hash("abcdefghijklmnopqrstuvwxyz");

    assert_eq!(false, util::is_equal(hashed.as_str(), "harini"));
    assert_eq!(true, util::is_equal(hashed.as_str(), "abcdefghijklmnopqrstuvwxyz"));
    assert_eq!(false, util::is_equal(hashed.as_str(), "abcdefghij lmnopqrstuvwxyz"));
}

#[test]
fn gen_password() {
    println!("{}", util::hash("harini"));
    println!("{}", util::hash("harini"));
}

#[test]
fn parses_schedule_text_to_the_minute() {
    // 2020-08-27T06:53:09Z is epoch second 1598511189; the seconds are
    // stripped.
    assert_eq!(1598511180, util::as_date("2020-08-27T06:53:09Z"));
    assert!(util::is_valid_date("2020-08-27T06:53:09Z"));
    assert!(!util::is_valid_date("2020-08-27 06:53"));
    assert!(!util::is_valid_date("not a date"));
}

#[test]
fn day_bounds_come_from_the_day_pattern() {
    assert_eq!(Ok(1598313600), util::as_start_date("2020-08-25"));
    assert_eq!(Ok(1598399940), util::as_end_date("2020-08-25"));
    assert_eq!(Err(String::from("Date format error")), util::as_start_date("2020-08-25T10:45:07Z"));
}

#[test]
fn strips_seconds_only() {
    assert_eq!(0, util::strip_seconds(59));
    assert_eq!(60, util::strip_seconds(60));
    assert_eq!(-60, util::strip_seconds(-1));
    assert_eq!(1598511180, util::strip_seconds(1598511189));
}

#[test]
fn compares_dates_by_minute_and_day() {
    let clock = 1598511189;
    assert!(util::is_past_date(1598511120, clock));
    assert!(!util::is_past_date(1598511185, clock));
    assert!(util::is_in_past(clock - 86400, clock));
    assert!(!util::is_in_past(clock - 60, clock));
}

#[test]
fn renders_calendar_text() {
    assert_eq!("19700101T000000Z", util::format_time(0).as_str());
    assert_eq!("20231114T221320Z", util::format_time(1700000000).as_str());
    assert_eq!("20300101T030000Z", util::schedule_text(1893466800).as_str());
    assert_eq!("", util::schedule_text(8_000_000_000_001).as_str());
}

#[test]
fn fresh_ids_are_hyphenated_uuids() {
    let a = util::fuzzy_id();
    let b = util::fuzzy_id();
    assert_eq!(36, a.chars().count());
    assert_eq!(36, b.chars().count());
    assert_ne!(a, b);
}

#[test]
fn joins_names_with_and() {
    assert_eq!("Kirk and Spock", util::concat("Kirk", "Spock").as_str());
}

#[test]
fn blank_means_whitespace_only() {
    assert!(util::is_blank(""));
    assert!(util::is_blank("   \t\n"));
    assert!(!util::is_blank(" x "));
}
