use diesel_timescaledb::decimal::parse_decimal;
use diesel_timescaledb::decimal::push_decimal;
use diesel_timescaledb::schema::interval::parse_unit;
use diesel_timescaledb::schema::interval::split_words;
use diesel_timescaledb::schema::interval::unit_str;
use diesel_timescaledb::schema::interval::validate_interval_string;
use diesel_timescaledb::schema::TimeInterval;
use diesel_timescaledb::schema::TimeUnit;
use diesel_timescaledb::schema::ValidationError;
use diesel_timescaledb::text::chars_of;
use diesel_timescaledb::text::same_text;
use diesel_timescaledb::text::to_ascii_lowercase;

fn interval_reason(raw: &str) -> String {
    match TimeInterval::from_string(raw) {
        Ok(t) => panic!("{:?} was read as {:?}", raw, t),
        Err(ValidationError::InvalidInterval(reason)) => reason,
        Err(ValidationError::InvalidIdentifier(reason)) => {
            panic!("{:?} gave an identifier error: {}", raw, reason)
        }
    }
}

fn all_units() -> Vec<(TimeUnit, &'static str)> {
    vec![
        (TimeUnit::Microseconds, "microseconds"),
        (TimeUnit::Milliseconds, "milliseconds"),
        (TimeUnit::Seconds, "seconds"),
        (TimeUnit::Minutes, "minutes"),
        (TimeUnit::Hours, "hours"),
        (TimeUnit::Days, "days"),
        (TimeUnit::Weeks, "weeks"),
        (TimeUnit::Months, "months"),
        (TimeUnit::Years, "years"),
    ]
}

#[test]
fn writes_count_and_plural_unit() {
    for (unit, name) in all_units() {
        assert_eq!(TimeInterval::new(7, unit).to_postgres_interval(), format!("7 {}", name));
        assert_eq!(unit_str(unit), name);
    }
    assert_eq!(TimeInterval::new(1, TimeUnit::Hours).to_postgres_interval(), "1 hours");
    assert_eq!(TimeInterval::new(0, TimeUnit::Days).to_postgres_interval(), "0 days");
    assert_eq!(TimeInterval::new(10, TimeUnit::Days).to_postgres_interval(), "10 days");
    assert_eq!(TimeInterval::new(1000, TimeUnit::Weeks).to_postgres_interval(), "1000 weeks");
    assert_eq!(
        TimeInterval::new(u64::MAX, TimeUnit::Years).to_postgres_interval(),
        "18446744073709551615 years"
    );
}

#[test]
fn writes_the_statement_form() {
    assert_eq!(TimeInterval::new(1, TimeUnit::Hours).to_sql(), "INTERVAL '1 hours'");
    assert_eq!(TimeInterval::new(30, TimeUnit::Days).to_sql(), "INTERVAL '30 days'");
}

#[test]
fn reads_every_alias() {
    let aliases = [
        ("microsecond", TimeUnit::Microseconds),
        ("microseconds", TimeUnit::Microseconds),
        ("us", TimeUnit::Microseconds),
        ("millisecond", TimeUnit::Milliseconds),
        ("milliseconds", TimeUnit::Milliseconds),
        ("ms", TimeUnit::Milliseconds),
        ("second", TimeUnit::Seconds),
        ("seconds", TimeUnit::Seconds),
        ("s", TimeUnit::Seconds),
        ("minute", TimeUnit::Minutes),
        ("minutes", TimeUnit::Minutes),
        ("m", TimeUnit::Minutes),
        ("hour", TimeUnit::Hours),
        ("hours", TimeUnit::Hours),
        ("h", TimeUnit::Hours),
        ("day", TimeUnit::Days),
        ("days", TimeUnit::Days),
        ("d", TimeUnit::Days),
        ("week", TimeUnit::Weeks),
        ("weeks", TimeUnit::Weeks),
        ("w", TimeUnit::Weeks),
        ("month", TimeUnit::Months),
        ("months", TimeUnit::Months),
        ("year", TimeUnit::Years),
        ("years", TimeUnit::Years),
        ("y", TimeUnit::Years),
    ];
    for (alias, unit) in aliases {
        let text = format!("3 {}", alias);
        assert_eq!(TimeInterval::from_string(&text).unwrap(), TimeInterval::new(3, unit));
        let upper = format!("3 {}", alias.to_uppercase());
        assert_eq!(TimeInterval::from_string(&upper).unwrap(), TimeInterval::new(3, unit));
    }
}

#[test]
fn aliases_read_to_the_same_interval() {
    let full = TimeInterval::from_string("15 minutes").unwrap();
    let short = TimeInterval::from_string("15 m").unwrap();
    let single = TimeInterval::from_string("15 minute").unwrap();
    assert_eq!(full, TimeInterval::new(15, TimeUnit::Minutes));
    assert_eq!(full, short);
    assert_eq!(full, single);
    assert_eq!(short.to_postgres_interval(), "15 minutes");
}

#[test]
fn count_and_unit_must_be_two_words() {
    assert_eq!(interval_reason("15m"), "Interval must have format 'number unit'");
    assert_eq!(interval_reason("15"), "Interval must have format 'number unit'");
    assert_eq!(interval_reason("hours"), "Interval must have format 'number unit'");
    assert_eq!(interval_reason("1 hour extra"), "Interval must have format 'number unit'");
    assert_eq!(interval_reason(" "), "Interval must have format 'number unit'");
    assert_eq!(interval_reason("   "), "Interval must have format 'number unit'");
}

#[test]
fn names_an_unknown_unit() {
    assert_eq!(interval_reason("15 lightyears"), "Unknown time unit: lightyears");
    assert_eq!(interval_reason("15 Fortnights"), "Unknown time unit: Fortnights");
    assert_eq!(interval_reason("1 mon"), "Unknown time unit: mon");
    assert_eq!(interval_reason("1 hour."), "Unknown time unit: hour.");
    assert_eq!(interval_reason("1 1"), "Unknown time unit: 1");
}

#[test]
fn spaces_around_the_words_do_not_matter() {
    let expected = TimeInterval::new(1, TimeUnit::Hours);
    assert_eq!(TimeInterval::from_string("1 hour").unwrap(), expected);
    assert_eq!(TimeInterval::from_string("  1   hour  ").unwrap(), expected);
    assert_eq!(TimeInterval::from_string("1  h").unwrap(), expected);
}

#[test]
fn rejects_empty_and_long_texts() {
    assert_eq!(interval_reason(""), "Interval cannot be empty");
    let fifty = format!("{}1 hour", " ".repeat(44));
    assert_eq!(fifty.len(), 50);
    assert_eq!(TimeInterval::from_string(&fifty).unwrap(), TimeInterval::new(1, TimeUnit::Hours));
    let fifty_one = format!("{}1 hour", " ".repeat(45));
    assert_eq!(fifty_one.len(), 51);
    assert_eq!(interval_reason(&fifty_one), "Interval string too long");
    // Counted in bytes: 26 characters of two bytes each.
    assert_eq!(interval_reason(&"\u{e9}".repeat(26)), "Interval string too long");
}

#[test]
fn names_the_first_character_that_may_not_stand_in_an_interval() {
    assert_eq!(interval_reason("1;hour"), "Invalid character ';' in interval");
    assert_eq!(interval_reason("1 hour'; DROP TABLE x; --"), "Invalid character ''' in interval");
    assert_eq!(interval_reason("1\thour"), "Invalid character '\t' in interval");
    assert_eq!(interval_reason("+1 hour"), "Invalid character '+' in interval");
    assert_eq!(interval_reason("1 h\u{e9}"), "Invalid character '\u{e9}' in interval");
    assert_eq!(interval_reason("1 hour/*"), "Invalid character '/' in interval");
}

#[test]
fn the_count_must_be_an_unsigned_number() {
    assert_eq!(interval_reason("abc hours"), "Invalid numeric value");
    assert_eq!(interval_reason("-5 hours"), "Invalid numeric value");
    assert_eq!(interval_reason("1.5 hours"), "Invalid numeric value");
    assert_eq!(interval_reason("1_000 hours"), "Invalid numeric value");
    assert_eq!(interval_reason("1h hours"), "Invalid numeric value");
    assert_eq!(interval_reason("18446744073709551616 s"), "Invalid numeric value");
    assert_eq!(interval_reason("99999999999999999999999 s"), "Invalid numeric value");
}

#[test]
fn the_count_is_checked_before_the_unit() {
    assert_eq!(interval_reason("x lightyears"), "Invalid numeric value");
}

#[test]
fn reads_counts_with_leading_zeros_and_at_the_limit() {
    assert_eq!(
        TimeInterval::from_string("007 days").unwrap(),
        TimeInterval::new(7, TimeUnit::Days)
    );
    assert_eq!(TimeInterval::from_string("0 s").unwrap(), TimeInterval::new(0, TimeUnit::Seconds));
    assert_eq!(
        TimeInterval::from_string("18446744073709551615 us").unwrap(),
        TimeInterval::new(u64::MAX, TimeUnit::Microseconds)
    );
    assert_eq!(
        TimeInterval::from_string("000000000000000000000000000042 h").unwrap(),
        TimeInterval::new(42, TimeUnit::Hours)
    );
}

#[test]
fn what_is_written_reads_back() {
    for (unit, _) in all_units() {
        for value in [0u64, 1, 9, 10, 11, 99, 100, 12345, 4294967296, u64::MAX - 1, u64::MAX] {
            let interval = TimeInterval::new(value, unit);
            let text = interval.to_postgres_interval();
            assert_eq!(TimeInterval::from_string(&text).unwrap(), interval);
        }
    }
}

#[test]
fn interval_errors_are_shown_with_their_kind() {
    let e = TimeInterval::from_string("15 lightyears").unwrap_err();
    assert_eq!(e.to_string(), "Invalid time interval: Unknown time unit: lightyears");
    assert!(matches!(e, ValidationError::InvalidInterval(_)));
    let cloned = e.clone();
    assert_eq!(cloned.to_string(), e.to_string());
}

#[test]
fn whole_text_rules_alone() {
    assert!(validate_interval_string("anything goes 1.2-3_4").is_ok());
    assert!(validate_interval_string("15m").is_ok());
    let e = validate_interval_string("").unwrap_err();
    assert_eq!(e.to_string(), "Invalid time interval: Interval cannot be empty");
    let e = validate_interval_string("a,b").unwrap_err();
    assert_eq!(e.to_string(), "Invalid time interval: Invalid character ',' in interval");
}

#[test]
fn splits_into_words() {
    let words = |s: &str| -> Vec<String> {
        split_words(&chars_of(s)).into_iter().map(|w| w.into_iter().collect()).collect()
    };
    assert_eq!(words("15 minutes"), vec!["15", "minutes"]);
    assert_eq!(words("  a  bc   d "), vec!["a", "bc", "d"]);
    assert_eq!(words("abc"), vec!["abc"]);
    assert_eq!(words(""), Vec::<String>::new());
    assert_eq!(words("    "), Vec::<String>::new());
}

#[test]
fn reads_units() {
    assert_eq!(parse_unit(&chars_of("Hours")), Some(TimeUnit::Hours));
    assert_eq!(parse_unit(&chars_of("Y")), Some(TimeUnit::Years));
    assert_eq!(parse_unit(&chars_of("mo")), None);
    assert_eq!(parse_unit(&chars_of("")), None);
}

#[test]
fn reads_decimal_numbers() {
    assert_eq!(parse_decimal(&chars_of("0")), Some(0));
    assert_eq!(parse_decimal(&chars_of("15")), Some(15));
    assert_eq!(parse_decimal(&chars_of("0015")), Some(15));
    assert_eq!(parse_decimal(&chars_of("18446744073709551615")), Some(u64::MAX));
    assert_eq!(parse_decimal(&chars_of("18446744073709551616")), None);
    assert_eq!(parse_decimal(&chars_of("")), None);
    assert_eq!(parse_decimal(&chars_of("1a")), None);
    assert_eq!(parse_decimal(&chars_of("-1")), None);
    assert_eq!(parse_decimal(&chars_of("\u{0661}")), None);
}

#[test]
fn writes_decimal_numbers() {
    let written = |n: u64| -> String {
        let mut out = String::from("n=");
        push_decimal(&mut out, n);
        out
    };
    assert_eq!(written(0), "n=0");
    assert_eq!(written(7), "n=7");
    assert_eq!(written(10), "n=10");
    assert_eq!(written(1234567890), "n=1234567890");
    assert_eq!(written(u64::MAX), "n=18446744073709551615");
}

#[test]
fn lowers_and_compares_texts() {
    let lowered: String = to_ascii_lowercase(&chars_of("MiXed_09 \u{c9}")).into_iter().collect();
    assert_eq!(lowered, "mixed_09 \u{c9}");
    assert!(same_text(&chars_of("hours"), "hours"));
    assert!(!same_text(&chars_of("hours"), "hour"));
    assert!(!same_text(&chars_of("hour"), "hours"));
    assert!(!same_text(&chars_of("hours"), "houses"));
    assert!(same_text(&chars_of(""), ""));
}
