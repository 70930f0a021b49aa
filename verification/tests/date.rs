use sparagne_tui::text::Locale;
use sparagne_tui::validation::date::{
    localize, parse_date, validate_date, DateField, DateFormat, ZonedDateTime,
};

const ROME: &str = "Europe/Rome";

fn formatted(dt: &ZonedDateTime, pattern: &str) -> String {
    chrono::NaiveDate::from_ymd_opt(dt.local.year, dt.local.month, dt.local.day)
        .and_then(|d| d.and_hms_opt(dt.local.hour, dt.local.minute, dt.local.second))
        .map(|d| d.format(pattern).to_string())
        .unwrap_or_default()
}

#[test]
fn parse_date_iso() {
    let parsed = parse_date("2024-03-15", DateFormat::all(), ROME)
        .unwrap_or_else(|| panic!("expected ISO date to parse"));
    assert_eq!(parsed.format, DateFormat::Iso);
    assert_eq!(formatted(&parsed.datetime, "%Y-%m-%d"), "2024-03-15");
}

#[test]
fn parse_date_iso_time() {
    let parsed = parse_date("2024-03-15 14:30", DateFormat::all(), ROME)
        .unwrap_or_else(|| panic!("expected ISO date time to parse"));
    assert_eq!(parsed.format, DateFormat::IsoTime);
    assert_eq!(formatted(&parsed.datetime, "%H:%M"), "14:30");
}

#[test]
fn parse_date_european() {
    let parsed = parse_date("15/03/2024", DateFormat::all(), ROME)
        .unwrap_or_else(|| panic!("expected European date to parse"));
    assert_eq!(parsed.format, DateFormat::European);
    assert_eq!(formatted(&parsed.datetime, "%Y-%m-%d"), "2024-03-15");
}

#[test]
fn parse_date_european_time() {
    let parsed = parse_date("15/03/2024 14:30", DateFormat::all(), ROME)
        .unwrap_or_else(|| panic!("expected European date time to parse"));
    assert_eq!(parsed.format, DateFormat::EuropeanTime);
}

#[test]
fn parse_date_european_dash() {
    let parsed = parse_date("15-03-2024", DateFormat::all(), ROME)
        .unwrap_or_else(|| panic!("expected European dash date to parse"));
    assert_eq!(parsed.format, DateFormat::EuropeanDash);
}

#[test]
fn parse_date_invalid() {
    assert!(parse_date("", DateFormat::all(), ROME).is_none());
    assert!(parse_date("not a date", DateFormat::all(), ROME).is_none());
    assert!(parse_date("2024-13-45", DateFormat::all(), ROME).is_none());
    assert!(parse_date("32/01/2024", DateFormat::all(), ROME).is_none());
}

#[test]
fn parse_date_offsets_in_rome() {
    let winter = parse_date("15/01/2024", DateFormat::all(), ROME).unwrap();
    assert_eq!(winter.datetime.offset_seconds, 3600);
    assert_eq!(winter.datetime.local.hour, 0);
    let summer = parse_date("2024-07-01 08:05", DateFormat::all(), ROME).unwrap();
    assert_eq!(summer.datetime.offset_seconds, 7200);
    assert_eq!(summer.datetime.local.minute, 5);
}

#[test]
fn parse_date_surrounding_whitespace_and_dash_time() {
    let parsed = parse_date("  15-03-2024 09:00 ", DateFormat::all(), ROME).unwrap();
    assert_eq!(parsed.format, DateFormat::EuropeanDashTime);
    assert_eq!(parsed.datetime.local.hour, 9);
}

#[test]
fn parse_date_first_listed_format_wins() {
    let only_european = [DateFormat::European];
    assert!(parse_date("2024-03-15", &only_european, ROME).is_none());
    let parsed = parse_date("15/03/2024", &only_european, ROME).unwrap();
    assert_eq!(parsed.format, DateFormat::European);
}

#[test]
fn parse_date_unknown_zone_or_missing_hour() {
    assert!(parse_date("2024-03-15", DateFormat::all(), "Nowhere/Atlantis").is_none());
    // 02:30 on the last Sunday of March does not exist in Rome.
    assert!(parse_date("2024-03-31 02:30", DateFormat::all(), ROME).is_none());
    // 02:30 on the last Sunday of October happens twice in Rome.
    assert!(parse_date("2024-10-27 02:30", DateFormat::all(), ROME).is_none());
}

#[test]
fn validate_date_valid() {
    assert!(validate_date("2024-03-15", DateFormat::all(), ROME, Locale::It).is_valid());
    assert!(validate_date("15/03/2024", DateFormat::all(), ROME, Locale::It).is_valid());
    assert!(validate_date("2024-03-15 14:30", DateFormat::all(), ROME, Locale::It).is_valid());
}

#[test]
fn validate_date_invalid() {
    assert!(validate_date("invalid", DateFormat::all(), ROME, Locale::It).is_invalid());
    assert!(validate_date("2024-13-45", DateFormat::all(), ROME, Locale::It).is_invalid());
}

#[test]
fn validate_date_empty_is_valid() {
    assert!(validate_date("", DateFormat::all(), ROME, Locale::It).is_valid());
    assert!(validate_date("   ", DateFormat::all(), ROME, Locale::It).is_valid());
}

#[test]
fn validate_date_message() {
    assert_eq!(
        validate_date("nope", DateFormat::all(), ROME, Locale::En).error_message(),
        Some("Invalid date")
    );
}

#[test]
fn date_format_patterns() {
    assert_eq!(DateFormat::all().len(), 6);
    assert_eq!(DateFormat::all()[0], DateFormat::IsoTime);
    assert_eq!(DateFormat::EuropeanDashTime.pattern(), "%d-%m-%Y %H:%M");
    assert!(DateFormat::EuropeanTime.has_time());
    assert!(!DateFormat::Iso.has_time());
}

#[test]
fn localize_combines_reading_and_offset() {
    let z = localize((2024, 3, 15, 14, 30, 0), Some(3600)).unwrap();
    assert_eq!(z.local.year, 2024);
    assert_eq!(z.local.minute, 30);
    assert_eq!(z.offset_seconds, 3600);
    assert!(localize((2024, 3, 15, 14, 30, 0), None).is_none());
}

#[test]
fn date_field_typing() {
    let mut field = DateField::new();
    assert!(field.validation.is_valid());
    for c in "15/03/2024".chars() {
        field.push(c);
    }
    assert!(field.validation.is_valid());
    assert_eq!(field.value, "15/03/2024");
    field.push('x');
    assert!(field.validation.is_invalid());
    field.pop();
    assert!(field.validation.is_valid());
    let mut empty = DateField::new();
    empty.pop();
    assert_eq!(empty.value, "");
}

#[test]
fn date_field_with_value() {
    let field = DateField::with_value("15/03/2024");
    assert!(field.validation.is_valid());
    assert_eq!(field.timezone, "Europe/Rome");
    let bad = DateField::with_value("31/02/2024");
    assert_eq!(bad.validation.error_message(), Some("Data non valida"));
}

#[test]
fn date_field_required() {
    let mut field = DateField::new();
    field.required = true;
    field.push(' ');
    assert_eq!(field.validation.error_message(), Some("Data obbligatoria"));
}
