use spacepods::cli::summary_lines;
use spacepods::cli::{parse_u8, split_words, status_lines, CliCommand, NumberError};
use spacepods::ipc::DeviceStatus;
use spacepods::protocol::types::BatteryLevel;

#[test]
fn words_split_on_any_white_space() {
    assert_eq!(split_words("  anc   on "), vec!["anc".to_string(), "on".to_string()]);
    assert_eq!(split_words("a\tb\u{3000}c"), vec!["a", "b", "c"]);
    assert!(split_words("   ").is_empty());
}

#[test]
fn numbers_read_like_std() {
    assert_eq!(parse_u8("42"), Ok(42));
    assert_eq!(parse_u8("+7"), Ok(7));
    assert_eq!(parse_u8("255"), Ok(255));
    assert_eq!(parse_u8("256"), Err(NumberError::TooLarge));
    assert_eq!(parse_u8("-1"), Err(NumberError::InvalidDigit));
    assert_eq!(parse_u8("+"), Err(NumberError::InvalidDigit));
    assert_eq!(parse_u8(""), Err(NumberError::Empty));
    assert_eq!(parse_u8("12a"), Err(NumberError::InvalidDigit));
    assert_eq!(parse_u8("999x"), Err(NumberError::TooLarge));
    for v in 0u16..=300 {
        assert_eq!(parse_u8(&v.to_string()).ok(), v.to_string().parse::<u8>().ok());
    }
    assert_eq!(NumberError::InvalidDigit.message(), "invalid digit found in string");
}

#[test]
fn commands_from_lines() {
    assert!(matches!(CliCommand::parse("quit"), CliCommand::Exit));
    assert!(CliCommand::parse("exit").exits());
    assert!(matches!(CliCommand::parse(""), CliCommand::Nothing));
    assert!(matches!(CliCommand::parse("anc"), CliCommand::AncUsage));
    match CliCommand::parse("anc transparency") {
        CliCommand::SetAnc(m) => assert_eq!(m, "transparency"),
        _ => panic!("expected anc"),
    }
    assert!(matches!(CliCommand::parse("level 4"), CliCommand::SetLevel(4)));
    assert!(matches!(CliCommand::parse("level x"), CliCommand::BadNumber(NumberError::InvalidDigit)));
    assert!(matches!(CliCommand::parse("eq 13"), CliCommand::SetEq(13)));
    assert!(matches!(CliCommand::parse("eq"), CliCommand::EqUsage));
    assert!(matches!(CliCommand::parse("adaptive on"), CliCommand::SetAdaptive(true)));
    assert!(matches!(CliCommand::parse("dual off"), CliCommand::SetDual(false)));
    assert!(matches!(CliCommand::parse("dual yes"), CliCommand::SetDual(false)));
    assert!(matches!(CliCommand::parse("status"), CliCommand::Status));
    match CliCommand::parse("bogus 1") {
        CliCommand::Unknown(w) => assert_eq!(w, "bogus"),
        _ => panic!("expected unknown"),
    }
}

#[test]
fn status_box_lines() {
    let mut s = DeviceStatus::default_disconnected();
    s.apply_battery(BatteryLevel::new(Some(80), Some(70), None));
    let lines = status_lines(&s);
    assert_eq!(lines[1], "\x1b[1;36m║         SpacePods Status          ║\x1b[0m");
    assert_eq!(lines[3], "  Connected    : \x1b[1;31m✗\x1b[0m");
    assert_eq!(lines[4], "  Battery      : L:80%  R:70%");
    assert_eq!(lines[5], "  ANC Mode     : OFF");
    assert_eq!(lines[6], "  Level        : 0/0");
    assert_eq!(lines[7], "  Adaptive ANC : UNKNOWN");
    assert_eq!(lines.len(), 10);
    assert_eq!(lines[9], "");
}

#[test]
fn one_shot_status_lines() {
    let s = DeviceStatus::default_disconnected();
    let lines = summary_lines(&s);
    assert_eq!(
        lines,
        vec![
            "SpacePods Status:",
            "  Connected: ✗",
            "  ANC Mode: OFF",
            "  Level: 0/0",
            "  Adaptive ANC: UNKNOWN",
            "  Dual Device: UNKNOWN",
        ]
    );
}
