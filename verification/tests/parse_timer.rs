use flipclock::parse::{parse_timer_input, timer_secs_from_chars};

#[test]
fn parses_minutes_and_seconds() {
    assert_eq!(parse_timer_input("25:00"), Some(1500));
    assert_eq!(parse_timer_input("5:30"), Some(330));
    assert_eq!(parse_timer_input("1:01:30"), Some(3690));
}

#[test]
fn parses_suffix_forms() {
    assert_eq!(parse_timer_input("25m"), Some(1500));
    assert_eq!(parse_timer_input("90s"), Some(90));
    assert_eq!(parse_timer_input("2h"), Some(7200));
    assert_eq!(parse_timer_input("2s"), Some(5));
    assert_eq!(parse_timer_input("00:03"), Some(5));
    assert_eq!(parse_timer_input("0:04"), Some(5));
    assert_eq!(parse_timer_input("003"), Some(5));
    assert_eq!(parse_timer_input("0"), Some(5));
    assert_eq!(parse_timer_input("0:00:00"), Some(5));
    assert_eq!(parse_timer_input("30h"), Some(86400));
    assert_eq!(parse_timer_input("+5m"), Some(300));
}

#[test]
fn parses_plain_digit_runs() {
    assert_eq!(parse_timer_input("25"), Some(1500));
    assert_eq!(parse_timer_input("530"), Some(330));
    assert_eq!(parse_timer_input("125"), Some(85));
    assert_eq!(parse_timer_input("2500"), Some(1500));
    assert_eq!(parse_timer_input("10130"), Some(3690));
}

#[test]
fn normalizes_before_parsing() {
    assert_eq!(parse_timer_input("  25 M  "), Some(1500));
    assert_eq!(parse_timer_input("\u{3000}90S"), Some(90));
    assert_eq!(parse_timer_input("1 : 30"), Some(90));
}

#[test]
fn refuses_bad_input() {
    assert_eq!(parse_timer_input(""), None);
    assert_eq!(parse_timer_input("   "), None);
    assert_eq!(parse_timer_input("abc"), None);
    assert_eq!(parse_timer_input("1:2:3:4"), None);
    assert_eq!(parse_timer_input("5:60"), None);
    assert_eq!(parse_timer_input("1:60:00"), None);
    assert_eq!(parse_timer_input("1234:00"), None);
    assert_eq!(parse_timer_input(":30"), None);
    assert_eq!(parse_timer_input("5m30s"), None);
    assert_eq!(parse_timer_input("1:30m"), None);
    assert_eq!(parse_timer_input("1:30s"), None);
    assert_eq!(parse_timer_input("1234567"), None);
    assert_eq!(parse_timer_input("575"), None);
    assert_eq!(parse_timer_input("h"), None);
    assert_eq!(parse_timer_input("+h"), None);
    assert_eq!(parse_timer_input("-5m"), None);
    assert_eq!(parse_timer_input("99999999999s"), None);
}

#[test]
fn caps_long_inputs_at_a_day() {
    assert_eq!(parse_timer_input("999:59:59"), Some(86400));
    assert_eq!(parse_timer_input("995959"), Some(86400));
    assert_eq!(parse_timer_input("4294967295s"), Some(86400));
    assert_eq!(parse_timer_input("9999999h"), Some(86400));
}

#[test]
fn reads_normalized_characters() {
    let s: Vec<char> = "90s".chars().collect();
    assert_eq!(timer_secs_from_chars(&s), Some(90));
    let s: Vec<char> = "90S".chars().collect();
    assert_eq!(timer_secs_from_chars(&s), None);
}

#[test]
fn case_and_spaces_do_not_matter() {
    for raw in ["25m", "2h", "90s", "05:30", "1:01:30", "530", "25 m", "0:03", "abc", ""] {
        let upper = raw.to_ascii_uppercase();
        let spaceless = raw.replace(' ', "");
        assert_eq!(parse_timer_input(&upper), parse_timer_input(raw));
        assert_eq!(parse_timer_input(&spaceless), parse_timer_input(raw));
    }
    assert_eq!(parse_timer_input(" 2 5 M "), Some(1500));
    assert_eq!(parse_timer_input("1 H"), Some(3600));
}

