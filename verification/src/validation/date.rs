//! Date validation for form inputs.
//!
//! Supported formats:
//! - `YYYY-MM-DD` (ISO)
//! - `YYYY-MM-DD HH:MM` (ISO with time)
//! - `DD/MM/YYYY` (European)
//! - `DD/MM/YYYY HH:MM` (European with time)
//! - `DD-MM-YYYY` (European with dashes)
//! - `DD-MM-YYYY HH:MM` (European with dashes and time)
//!
//! Reading a text against a pattern and placing a local time in a time zone
//! (named by its IANA identifier, such as `Europe/Rome`) are done by `chrono`
//! and `chrono-tz`; this module decides which formats are tried, in which
//! order, and what the outcome means for a form field.

use super::{ValidationResult, invalid_with};
use crate::strings::{lemma_trim_idempotent, pop_char, push_char, string_of, to_chars, trim, trim_bounds};
use crate::text::{Locale, TextKey, message, t};
use chrono::{Datelike, TimeZone, Timelike};
use vstd::prelude::*;

verus! {

/// Supported date input formats.
#[derive(Debug, Clone, Copy, PartialEq, Eq, Structural)]
pub enum DateFormat {
    /// `YYYY-MM-DD`
    Iso,
    /// `YYYY-MM-DD HH:MM`
    IsoTime,
    /// `DD/MM/YYYY`
    European,
    /// `DD/MM/YYYY HH:MM`
    EuropeanTime,
    /// `DD-MM-YYYY`
    EuropeanDash,
    /// `DD-MM-YYYY HH:MM`
    EuropeanDashTime,
}

/// The `chrono` pattern of a format.
pub open spec fn pattern_of(f: DateFormat) -> Seq<char> {
    match f {
        DateFormat::Iso => "%Y-%m-%d"@,
        DateFormat::IsoTime => "%Y-%m-%d %H:%M"@,
        DateFormat::European => "%d/%m/%Y"@,
        DateFormat::EuropeanTime => "%d/%m/%Y %H:%M"@,
        DateFormat::EuropeanDash => "%d-%m-%Y"@,
        DateFormat::EuropeanDashTime => "%d-%m-%Y %H:%M"@,
    }
}

/// Whether a format carries a time of day.
pub open spec fn format_has_time(f: DateFormat) -> bool {
    f is IsoTime || f is EuropeanTime || f is EuropeanDashTime
}

/// The formats in order of preference: each with a time before its date-only twin.
pub open spec fn all_formats() -> Seq<DateFormat> {
    seq![
        DateFormat::IsoTime,
        DateFormat::Iso,
        DateFormat::EuropeanTime,
        DateFormat::European,
        DateFormat::EuropeanDashTime,
        DateFormat::EuropeanDash,
    ]
}

impl DateFormat {
    /// All supported formats, in order of preference.
    pub fn all() -> (r: &'static [Self])
        ensures
            r@ == all_formats(),
    {
        let r: &'static [Self] = &[
            DateFormat::IsoTime,
            DateFormat::Iso,
            DateFormat::EuropeanTime,
            DateFormat::European,
            DateFormat::EuropeanDashTime,
            DateFormat::EuropeanDash,
        ];
        r
    }

    /// The pattern `chrono` reads this format with.
    pub fn pattern(self) -> (r: &'static str)
        ensures
            r@ == pattern_of(self),
    {
        match self {
            DateFormat::Iso => "%Y-%m-%d",
            DateFormat::IsoTime => "%Y-%m-%d %H:%M",
            DateFormat::European => "%d/%m/%Y",
            DateFormat::EuropeanTime => "%d/%m/%Y %H:%M",
            DateFormat::EuropeanDash => "%d-%m-%Y",
            DateFormat::EuropeanDashTime => "%d-%m-%Y %H:%M",
        }
    }

    /// Whether this format includes a time of day.
    pub fn has_time(self) -> (r: bool)
        ensures
            r == format_has_time(self),
    {
        match self {
            DateFormat::IsoTime | DateFormat::EuropeanTime | DateFormat::EuropeanDashTime => true,
            _ => false,
        }
    }
}

/// A date and time of day, without a time zone.
#[derive(Debug, Clone, Copy, PartialEq, Eq, Structural)]
pub struct LocalDateTime {
    pub year: i32,
    pub month: u32,
    pub day: u32,
    pub hour: u32,
    pub minute: u32,
    pub second: u32,
}

/// A local date and time together with its offset from UTC.
#[derive(Debug, Clone, Copy, PartialEq, Eq, Structural)]
pub struct ZonedDateTime {
    /// The date and time as read on a clock in the zone.
    pub local: LocalDateTime,
    /// Seconds to add to UTC to get the local time.
    pub offset_seconds: i32,
}

/// Result of parsing a date string.
#[derive(Debug, Clone, Copy, PartialEq, Eq, Structural)]
pub struct ParsedDate {
    /// The parsed date and time with its offset.
    pub datetime: ZonedDateTime,
    /// The format that matched.
    pub format: DateFormat,
}

/// What `chrono::NaiveDateTime::parse_from_str(value, pattern)` gives, as
/// (year, month, day, hour, minute, second).
pub uninterp spec fn chrono_datetime_from_str(value: Seq<char>, pattern: Seq<char>) -> Option<
    (i32, u32, u32, u32, u32, u32),
>;

/// What `chrono::NaiveDate::parse_from_str(value, pattern)` gives, as
/// (year, month, day).
pub uninterp spec fn chrono_date_from_str(value: Seq<char>, pattern: Seq<char>) -> Option<
    (i32, u32, u32),
>;

/// The UTC offset, in seconds, that `chrono-tz` gives to the local time
/// (year, month, day, hour, minute, second) in the zone named `zone`, when
/// that local time exists exactly once there.
pub uninterp spec fn chrono_tz_local_offset(
    zone: Seq<char>,
    local: (i32, u32, u32, u32, u32, u32),
) -> Option<i32>;

/// Reads `value` against `pattern` with `chrono::NaiveDateTime::parse_from_str`.
/// The contract names the result; nothing else is claimed of it.
#[verifier::external_body]
fn read_datetime(value: &str, pattern: &str) -> (r: Option<(i32, u32, u32, u32, u32, u32)>)
    ensures
        r == chrono_datetime_from_str(value@, pattern@),
{
    match chrono::NaiveDateTime::parse_from_str(value, pattern) {
        Ok(dt) => Some((dt.year(), dt.month(), dt.day(), dt.hour(), dt.minute(), dt.second())),
        Err(_) => None,
    }
}

/// Reads `value` against `pattern` with `chrono::NaiveDate::parse_from_str`.
/// The contract names the result; nothing else is claimed of it.
#[verifier::external_body]
fn read_date(value: &str, pattern: &str) -> (r: Option<(i32, u32, u32)>)
    ensures
        r == chrono_date_from_str(value@, pattern@),
{
    match chrono::NaiveDate::parse_from_str(value, pattern) {
        Ok(d) => Some((d.year(), d.month(), d.day())),
        Err(_) => None,
    }
}

/// Places a local time in a zone with `chrono-tz`: `TimeZone::from_local_datetime`
/// on the zone that `zone` names, kept only when it is a single instant
/// (`LocalResult::single`), and its offset from UTC in seconds.  The contract
/// names the result and states the bound that `chrono::FixedOffset` keeps.
#[verifier::external_body]
fn local_offset(zone: &str, local: (i32, u32, u32, u32, u32, u32)) -> (r: Option<i32>)
    ensures
        r == chrono_tz_local_offset(zone@, local),
        r matches Some(off) ==> -86_400 < off < 86_400,
{
    let tz: chrono_tz::Tz = zone.parse().ok()?;
    let date = chrono::NaiveDate::from_ymd_opt(local.0, local.1, local.2)?;
    let naive = date.and_hms_opt(local.3, local.4, local.5)?;
    match tz.from_local_datetime(&naive).single() {
        Some(dt) => Some(dt.fixed_offset().offset().local_minus_utc()),
        None => None,
    }
}

/// The local time read from `value` in `format`; a date alone is at midnight.
pub open spec fn local_reading(value: Seq<char>, format: DateFormat) -> Option<
    (i32, u32, u32, u32, u32, u32),
> {
    if format_has_time(format) {
        chrono_datetime_from_str(value, pattern_of(format))
    } else {
        match chrono_date_from_str(value, pattern_of(format)) {
            Some((y, m, d)) => Some((y, m, d, 0u32, 0u32, 0u32)),
            None => None,
        }
    }
}

/// The zoned date and time for a local reading and the offset found for it.
pub open spec fn zoned(local: (i32, u32, u32, u32, u32, u32), offset: Option<i32>) -> Option<
    ZonedDateTime,
> {
    match offset {
        Some(off) => Some(
            ZonedDateTime {
                local: LocalDateTime {
                    year: local.0,
                    month: local.1,
                    day: local.2,
                    hour: local.3,
                    minute: local.4,
                    second: local.5,
                },
                offset_seconds: off,
            },
        ),
        None => None,
    }
}

/// What trying one format on `value` in the zone `zone` gives.
pub open spec fn format_attempt(value: Seq<char>, format: DateFormat, zone: Seq<char>) -> Option<
    ZonedDateTime,
> {
    match local_reading(value, format) {
        Some(local) => zoned(local, chrono_tz_local_offset(zone, local)),
        None => None,
    }
}

/// The result of the first format in `formats` that succeeds on `value`.
pub open spec fn first_match(value: Seq<char>, formats: Seq<DateFormat>, zone: Seq<char>) -> Option<
    ParsedDate,
>
    decreases formats.len(),
{
    if formats.len() == 0 {
        None
    } else {
        match format_attempt(value, formats[0], zone) {
            Some(dt) => Some(ParsedDate { datetime: dt, format: formats[0] }),
            None => first_match(value, formats.drop_first(), zone),
        }
    }
}

/// What [`parse_date`] gives for `value`.
pub open spec fn date_value(value: Seq<char>, formats: Seq<DateFormat>, zone: Seq<char>) -> Option<
    ParsedDate,
> {
    if trim(value).len() == 0 {
        None
    } else {
        first_match(trim(value), formats, zone)
    }
}

/// A `chrono` pattern that ends with a time of day, ` %H:%M`.
pub open spec fn ends_with_time(pattern: Seq<char>) -> bool {
    pattern.len() >= 6 && pattern.subrange(pattern.len() - 6, pattern.len() as int) == " %H:%M"@
}

proof fn lemma_time_pattern(format: DateFormat)
    ensures
        ends_with_time(pattern_of(format)) <==> format_has_time(format),
{
    reveal_strlit("%Y-%m-%d");
    reveal_strlit("%Y-%m-%d %H:%M");
    reveal_strlit("%d/%m/%Y");
    reveal_strlit("%d/%m/%Y %H:%M");
    reveal_strlit("%d-%m-%Y");
    reveal_strlit("%d-%m-%Y %H:%M");
    reveal_strlit(" %H:%M");
    let p = pattern_of(format);
    if !format_has_time(format) {
        assert(p.len() == 8);
        assert(p.subrange(2, 8)[0] != " %H:%M"@[0]);
    } else {
        assert(p.subrange(p.len() - 6, p.len() as int) =~= " %H:%M"@);
    }
}

/// Law: a format whose pattern ends with a time of day keeps the hour and
/// minute written in the text: what it reads is `chrono`'s date-time
/// reading of the text with that pattern, placed in the zone.
pub proof fn law_time_formats_keep_time(value: Seq<char>, format: DateFormat, zone: Seq<char>)
    requires
        ends_with_time(pattern_of(format)),
    ensures
        format_attempt(value, format, zone) == match chrono_datetime_from_str(value, pattern_of(format)) {
            Some(l) => zoned(l, chrono_tz_local_offset(zone, l)),
            None => None,
        },
{
    lemma_time_pattern(format);
}

/// Law: a format whose pattern has no time of day reads the date alone, at
/// midnight in the zone.
pub proof fn law_date_formats_at_midnight(value: Seq<char>, format: DateFormat, zone: Seq<char>)
    requires
        !ends_with_time(pattern_of(format)),
    ensures
        format_attempt(value, format, zone) == match chrono_date_from_str(value, pattern_of(format)) {
            Some((y, m, d)) => zoned((y, m, d, 0u32, 0u32, 0u32), chrono_tz_local_offset(zone, (y, m, d, 0u32, 0u32, 0u32))),
            None => None,
        },
{
    lemma_time_pattern(format);
}

proof fn lemma_first_match(value: Seq<char>, formats: Seq<DateFormat>, zone: Seq<char>)
    ensures
        first_match(value, formats, zone) matches Some(p) ==> formats.contains(p.format) && format_attempt(
            value,
            p.format,
            zone,
        ) == Some(p.datetime),
    decreases formats.len(),
{
    if formats.len() > 0 && format_attempt(value, formats[0], zone) is None {
        lemma_first_match(value, formats.drop_first(), zone);
        if let Some(p) = first_match(value, formats, zone) {
            let k = choose|k: int| 0 <= k < formats.drop_first().len() && formats.drop_first()[k] == p.format;
            assert(formats[k + 1] == p.format);
        }
    } else if formats.len() > 0 {
        assert(formats[0] == formats[0]);
    }
}

/// Law: a parsed date is what its format reads in the trimmed text: with a
/// time of day when the format's pattern ends with one (the typed hour and
/// minute are kept), else the date at midnight; and its format is one of
/// those asked for.
pub proof fn law_parsed_date_is_read(value: Seq<char>, formats: Seq<DateFormat>, zone: Seq<char>)
    ensures
        date_value(value, formats, zone) matches Some(p) ==> {
            &&& formats.contains(p.format)
            &&& ends_with_time(pattern_of(p.format)) ==> (chrono_datetime_from_str(trim(value), pattern_of(p.format))
                matches Some(l) && p.datetime.local == (LocalDateTime {
                year: l.0,
                month: l.1,
                day: l.2,
                hour: l.3,
                minute: l.4,
                second: l.5,
            }))
            &&& !ends_with_time(pattern_of(p.format)) ==> (chrono_date_from_str(trim(value), pattern_of(p.format))
                matches Some(d) && p.datetime.local == (LocalDateTime {
                year: d.0,
                month: d.1,
                day: d.2,
                hour: 0,
                minute: 0,
                second: 0,
            }))
        },
{
    if trim(value).len() > 0 {
        lemma_first_match(trim(value), formats, zone);
        if let Some(p) = date_value(value, formats, zone) {
            lemma_time_pattern(p.format);
        }
    }
}

proof fn lemma_first_match_order(value: Seq<char>, formats: Seq<DateFormat>, zone: Seq<char>)
    ensures
        first_match(value, formats, zone) matches Some(p) ==> exists|k: int|
            0 <= k < formats.len() && formats[k] == p.format && format_attempt(value, formats[k], zone)
                == Some(p.datetime) && forall|j: int|
                0 <= j < k ==> (#[trigger] format_attempt(value, formats[j], zone)) is None,
        first_match(value, formats, zone) is None ==> forall|j: int|
            0 <= j < formats.len() ==> (#[trigger] format_attempt(value, formats[j], zone)) is None,
    decreases formats.len(),
{
    if formats.len() > 0 {
        let rest = formats.drop_first();
        lemma_first_match_order(value, rest, zone);
        if format_attempt(value, formats[0], zone) is None {
            assert forall|j: int| 1 <= j < formats.len() implies formats[j] == rest[j - 1] by {}
            if let Some(p) = first_match(value, formats, zone) {
                let k = choose|k: int|
                    0 <= k < rest.len() && rest[k] == p.format && format_attempt(value, rest[k], zone) == Some(
                        p.datetime,
                    ) && forall|j: int| 0 <= j < k ==> (#[trigger] format_attempt(value, rest[j], zone)) is None;
                assert forall|j: int| 0 <= j < k + 1 implies (#[trigger] format_attempt(value, formats[j], zone)) is None by {
                    if j > 0 {
                        assert(formats[j] == rest[j - 1]);
                    }
                }
                assert(formats[k + 1] == p.format);
            } else {
                assert forall|j: int| 0 <= j < formats.len() implies (#[trigger] format_attempt(value, formats[j], zone)) is None by {
                    if j > 0 {
                        assert(formats[j] == rest[j - 1]);
                    }
                }
            }
        }
    }
}

/// Law: parsing tries the formats in the order given: a parsed date comes
/// from the first format that reads the trimmed text, every earlier one
/// having failed; and a non-blank text that no format reads gives nothing.
pub proof fn law_first_readable_format_wins(value: Seq<char>, formats: Seq<DateFormat>, zone: Seq<char>)
    ensures
        date_value(value, formats, zone) matches Some(p) ==> exists|k: int|
            0 <= k < formats.len() && formats[k] == p.format && format_attempt(trim(value), formats[k], zone)
                == Some(p.datetime) && forall|j: int|
                0 <= j < k ==> (#[trigger] format_attempt(trim(value), formats[j], zone)) is None,
        trim(value).len() > 0 && date_value(value, formats, zone) is None ==> forall|j: int|
            0 <= j < formats.len() ==> (#[trigger] format_attempt(trim(value), formats[j], zone)) is None,
        trim(value).len() == 0 ==> date_value(value, formats, zone) is None,
{
    lemma_first_match_order(trim(value), formats, zone);
}

/// Combines a local reading with the offset found for it in a zone.
pub fn localize(local: (i32, u32, u32, u32, u32, u32), offset: Option<i32>) -> (r: Option<
    ZonedDateTime,
>)
    ensures
        r == zoned(local, offset),
{
    match offset {
        Some(off) => Some(
            ZonedDateTime {
                local: LocalDateTime {
                    year: local.0,
                    month: local.1,
                    day: local.2,
                    hour: local.3,
                    minute: local.4,
                    second: local.5,
                },
                offset_seconds: off,
            },
        ),
        None => None,
    }
}

fn try_parse_format(value: &str, format: DateFormat, zone: &str) -> (r: Option<ZonedDateTime>)
    ensures
        r == format_attempt(value@, format, zone@),
{
    let local = if format.has_time() {
        read_datetime(value, format.pattern())
    } else {
        match read_date(value, format.pattern()) {
            Some((y, m, d)) => Some((y, m, d, 0u32, 0u32, 0u32)),
            None => None,
        }
    };
    match local {
        Some(l) => localize(l, local_offset(zone, l)),
        None => None,
    }
}

/// Parses a date string with the first of `formats` that matches; dates
/// without a time of day are taken at midnight in the zone `timezone`.
pub fn parse_date(value: &str, formats: &[DateFormat], timezone: &str) -> (r: Option<ParsedDate>)
    ensures
        r == date_value(value@, formats@, timezone@),
{
    let cs = to_chars(value);
    let (lo, hi) = trim_bounds(&cs);
    if lo == hi {
        return None;
    }
    let trimmed = string_of(&cs, lo, hi);
    let ghost tv = trim(value@);
    let mut i: usize = 0;
    assert(formats@.skip(0) =~= formats@);
    while i < formats.len()
        invariant
            i <= formats@.len(),
            trimmed@ == tv,
            tv == trim(value@),
            tv.len() > 0,
            first_match(tv, formats@, timezone@) == first_match(
                tv,
                formats@.skip(i as int),
                timezone@,
            ),
        decreases formats.len() - i,
    {
        let format = formats[i];
        assert(formats@.skip(i as int)[0] == format);
        assert(formats@.skip(i as int).drop_first() =~= formats@.skip(i + 1));
        let attempt = try_parse_format(trimmed.as_str(), format, timezone);
        assert(formats@.skip(i as int).len() > 0);
        if let Some(datetime) = attempt {
            assert(first_match(tv, formats@.skip(i as int), timezone@) == Some(
                ParsedDate { datetime, format },
            ));
            return Some(ParsedDate { datetime, format });
        }
        i = i + 1;
    }
    assert(formats@.skip(i as int).len() == 0);
    None
}

/// Validates a date string: blank text passes (required-ness is checked
/// separately); otherwise one of `formats` must match.
pub fn validate_date(value: &str, formats: &[DateFormat], timezone: &str, locale: Locale) -> (r:
    ValidationResult)
    ensures
        date_result_ok(r, value@, formats@, timezone@, locale),
{
    let cs = to_chars(value);
    let (lo, hi) = trim_bounds(&cs);
    if lo == hi {
        return ValidationResult::Valid;
    }
    let trimmed = string_of(&cs, lo, hi);
    proof {
        lemma_trim_idempotent(value@);
    }
    match parse_date(trimmed.as_str(), formats, timezone) {
        Some(_) => ValidationResult::Valid,
        None => {
            let mut msg = String::new();
            msg.append(t(locale, TextKey::ValidationDateInvalid));
            ValidationResult::Invalid(msg)
        },
    }
}

/// `r` is what [`validate_date`] gives for `value`.
pub open spec fn date_result_ok(
    r: ValidationResult,
    value: Seq<char>,
    formats: Seq<DateFormat>,
    zone: Seq<char>,
    locale: Locale,
) -> bool {
    if trim(value).len() == 0 || date_value(value, formats, zone) is Some {
        r is Valid
    } else {
        invalid_with(r, message(locale, TextKey::ValidationDateInvalid))
    }
}

/// A form field for date input, validated as it is typed.
#[derive(Debug, Clone)]
pub struct DateField {
    /// Current input value.
    pub value: String,
    /// IANA name of the time zone dates are read in.
    pub timezone: String,
    /// Locale for error messages.
    pub locale: Locale,
    /// Whether the field is required.
    pub required: bool,
    /// Validation result of the current value.
    pub validation: ValidationResult,
}

/// `r` is the validation of a date field holding `value`.
pub open spec fn field_result_ok(
    r: ValidationResult,
    value: Seq<char>,
    required: bool,
    zone: Seq<char>,
    locale: Locale,
) -> bool {
    if trim(value).len() == 0 {
        if required {
            invalid_with(r, message(locale, TextKey::ValidationDateRequired))
        } else {
            r is Valid
        }
    } else {
        date_result_ok(r, value, all_formats(), zone, locale)
    }
}

impl DateField {
    /// Whether the held validation is the one of the current value.
    pub open spec fn is_current(&self) -> bool {
        field_result_ok(self.validation, self.value@, self.required, self.timezone@, self.locale)
    }

    /// A new empty, optional field reading dates in `Europe/Rome`, with Italian messages.
    pub fn new() -> (r: Self)
        ensures
            r.value@.len() == 0,
            r.timezone@ == "Europe/Rome"@,
            r.locale == Locale::It,
            !r.required,
            r.validation is Valid,
            r.is_current(),
    {
        let mut timezone = String::new();
        timezone.append("Europe/Rome");
        DateField {
            value: String::new(),
            timezone,
            locale: Locale::It,
            required: false,
            validation: ValidationResult::Valid,
        }
    }

    /// A new field holding `value`, validated.
    pub fn with_value(value: &str) -> (r: Self)
        ensures
            r.value@ == value@,
            r.timezone@ == "Europe/Rome"@,
            r.locale == Locale::It,
            !r.required,
            r.is_current(),
    {
        let mut field = Self::new();
        let mut v = String::new();
        v.append(value);
        field.value = v;
        field.revalidate();
        field
    }

    /// Types a character into the field.
    pub fn push(&mut self, ch: char)
        ensures
            final(self).value@ == old(self).value@.push(ch),
            final(self).timezone == old(self).timezone,
            final(self).locale == old(self).locale,
            final(self).required == old(self).required,
            final(self).is_current(),
    {
        push_char(&mut self.value, ch);
        self.revalidate();
    }

    /// Deletes the last character of the field, if any.
    pub fn pop(&mut self)
        ensures
            old(self).value@.len() > 0 ==> final(self).value@ == old(self).value@.drop_last(),
            old(self).value@.len() == 0 ==> final(self).value@ == old(self).value@,
            final(self).timezone == old(self).timezone,
            final(self).locale == old(self).locale,
            final(self).required == old(self).required,
            final(self).is_current(),
    {
        pop_char(&mut self.value);
        self.revalidate();
    }

    fn revalidate(&mut self)
        ensures
            final(self).value == old(self).value,
            final(self).timezone == old(self).timezone,
            final(self).locale == old(self).locale,
            final(self).required == old(self).required,
            final(self).is_current(),
    {
        let cs = to_chars(self.value.as_str());
        let (lo, hi) = trim_bounds(&cs);
        if lo == hi {
            if self.required {
                let mut msg = String::new();
                msg.append(t(self.locale, TextKey::ValidationDateRequired));
                self.validation = ValidationResult::Invalid(msg);
            } else {
                self.validation = ValidationResult::Valid;
            }
            return;
        }
        let trimmed = string_of(&cs, lo, hi);
        proof {
            lemma_trim_idempotent(self.value@);
        }
        self.validation = validate_date(
            trimmed.as_str(),
            DateFormat::all(),
            self.timezone.as_str(),
            self.locale,
        );
    }
}

impl Default for DateField {
    fn default() -> (r: Self)
        ensures
            r.value@.len() == 0,
            r.timezone@ == "Europe/Rome"@,
            r.locale == Locale::It,
            !r.required,
            r.validation is Valid,
    {
        DateField::new()
    }
}

/// Two validations say the same: both pass, or both fail with the same message.
pub open spec fn same_verdict(a: ValidationResult, b: ValidationResult) -> bool {
    match (a, b) {
        (ValidationResult::Valid, ValidationResult::Valid) => true,
        (ValidationResult::Invalid(m1), ValidationResult::Invalid(m2)) => m1@ == m2@,
        _ => false,
    }
}

/// Law: whitespace around a date does not change how it is read.
pub proof fn law_date_ignores_surrounding_whitespace(
    value: Seq<char>,
    formats: Seq<DateFormat>,
    zone: Seq<char>,
)
    ensures
        date_value(trim(value), formats, zone) == date_value(value, formats, zone),
{
    lemma_trim_idempotent(value);
}

/// Law: a date is read exactly when some format matches it, and then it is
/// read with the first such format.
pub proof fn law_first_matching_format(value: Seq<char>, formats: Seq<DateFormat>, zone: Seq<char>)
    ensures
        first_match(value, formats, zone) is Some <==> exists|i: int|
            0 <= i < formats.len() && #[trigger] format_attempt(value, formats[i], zone) is Some,
        first_match(value, formats, zone) matches Some(p) ==> exists|i: int|
            0 <= i < formats.len() && formats[i] == p.format && format_attempt(
                value,
                formats[i],
                zone,
            ) == Some(p.datetime) && (forall|j: int|
                0 <= j < i ==> #[trigger] format_attempt(value, formats[j], zone) is None),
    decreases formats.len(),
{
    if formats.len() > 0 {
        let rest = formats.drop_first();
        law_first_matching_format(value, rest, zone);
        if format_attempt(value, formats[0], zone) is Some {
            assert(format_attempt(value, formats[0], zone) is Some);
        } else {
            if exists|i: int|
                0 <= i < formats.len() && #[trigger] format_attempt(value, formats[i], zone) is Some {
                let i = choose|i: int|
                    0 <= i < formats.len() && #[trigger] format_attempt(value, formats[i], zone)
                        is Some;
                assert(rest[i - 1] == formats[i]);
                assert(format_attempt(value, rest[i - 1], zone) is Some);
            }
            if first_match(value, formats, zone) is Some {
                let p = first_match(value, formats, zone)->0;
                let k = choose|k: int|
                    0 <= k < rest.len() && rest[k] == p.format && format_attempt(value, rest[k], zone)
                        == Some(p.datetime) && (forall|j: int|
                        0 <= j < k ==> #[trigger] format_attempt(value, rest[j], zone) is None);
                assert(formats[k + 1] == rest[k]);
                assert forall|j: int| 0 <= j < k + 1 implies #[trigger] format_attempt(
                    value,
                    formats[j],
                    zone,
                ) is None by {
                    if j > 0 {
                        assert(formats[j] == rest[j - 1]);
                    }
                }
            }
            if exists|i: int|
                0 <= i < rest.len() && #[trigger] format_attempt(value, rest[i], zone) is Some {
                let i = choose|i: int|
                    0 <= i < rest.len() && #[trigger] format_attempt(value, rest[i], zone) is Some;
                assert(formats[i + 1] == rest[i]);
            }
        }
    }
}

/// Law: a field's validation is a function of its text, requiredness, zone
/// and locale: two fields that agree on those say the same.
pub proof fn law_field_validation_depends_on_content(a: DateField, b: DateField)
    requires
        a.is_current(),
        b.is_current(),
        a.value@ == b.value@,
        a.required == b.required,
        a.timezone@ == b.timezone@,
        a.locale == b.locale,
    ensures
        same_verdict(a.validation, b.validation),
{
}

/// Law: deleting the character just typed into a field gives back the text
/// it held and the verdict it showed.  `typed` is `field` after
/// [`DateField::push`] of `ch` and `deleted` is `typed` after
/// [`DateField::pop`], as their contracts state them.
pub proof fn law_pop_undoes_push(field: DateField, ch: char, typed: DateField, deleted: DateField)
    requires
        field.is_current(),
        typed.value@ == field.value@.push(ch),
        typed.timezone == field.timezone,
        typed.locale == field.locale,
        typed.required == field.required,
        typed.is_current(),
        typed.value@.len() > 0 ==> deleted.value@ == typed.value@.drop_last(),
        deleted.timezone == typed.timezone,
        deleted.locale == typed.locale,
        deleted.required == typed.required,
        deleted.is_current(),
    ensures
        deleted.value@ == field.value@,
        same_verdict(deleted.validation, field.validation),
{
    assert(field.value@.push(ch).drop_last() =~= field.value@);
}

} // verus!
