//! Text, numbers, the calendar and the small tables.

use sekejap_lang::ast::TimeUnit;
use sekejap_lang::calendar::{date_of, days_from_civil, end_of, extract, floor_div, floor_mod, start_of};
use sekejap_lang::decimal::is_float;
use sekejap_lang::error::{SqlError, Tier};
use sekejap_lang::guc::{client_guc, guc, guc_name};
use sekejap_lang::idset::sorted_set;
use sekejap_lang::instant::{
    date_trunc, format_date, format_timestamp, is_time_type, next_unit, to_char,
};
use sekejap_lang::number::{int_bits, order_real, to_i64, to_size, whole, whole_i64, Real};
use sekejap_lang::refuse::{lookup, multi_range, refuse};
use sekejap_lang::scan::{
    begins, holds_text, order_text, parse_i64, split, strip_both, trim, word_count, Order,
};
use sekejap_lang::strings::{
    left, length, like_prefix, position, prefix_successor, replace, right, split_part, substring,
    PrefixSuccessor,
};
use sekejap_lang::text::{
    ascii_lower, ascii_upper, decimal_i64, decimal_u64, is_white, join, same, same_letters,
};
use sekejap_lang::timestamp::{parse_interval, parse_timestamp};
use sekejap_lang::token::{Sym, Tok};
use sekejap_lang::value::{shown, EntityId, JsonDoc, Kind, SqlValue, Value};

const LEAP_NOON: i64 = 1_709_210_096_789_000;

fn number(x: f64) -> Real {
    Real { bits: x.to_bits(), shown: format!("{x}"), json: format!("{x:?}") }
}

// ── text ─────────────────────────────────────────────────────────────────

#[test]
fn equal_texts_have_the_same_characters() {
    assert!(same("straße", "straße"));
    assert!(same("", ""));
    assert!(!same("a", "ab"));
    assert!(!same("ab", "a"));
    assert!(!same("a", "A"));
}

#[test]
fn letters_are_ascii_letters() {
    assert_eq!(ascii_lower("SELECT Ä"), "select Ä");
    assert_eq!(ascii_upper("select ä"), "SELECT ä");
    assert!(same_letters("Key", "kEY"));
    assert!(!same_letters("Key", "Keys"));
    assert!(!same_letters("Ä", "ä"));
}

#[test]
fn decimals_at_the_limits() {
    assert_eq!(decimal_u64(0), "0");
    assert_eq!(decimal_u64(u64::MAX), "18446744073709551615");
    assert_eq!(decimal_i64(i64::MIN), "-9223372036854775808");
    assert_eq!(parse_i64("-9223372036854775808"), Some(i64::MIN));
    assert_eq!(parse_i64("9223372036854775808"), None);
    assert_eq!(parse_i64("+7"), Some(7));
    assert_eq!(parse_i64(""), None);
    assert_eq!(parse_i64("-"), None);
}

#[test]
fn texts_are_cut_and_joined() {
    let parts = split("a,b,,c", ',');
    assert_eq!(parts, vec!["a", "b", "", "c"]);
    assert_eq!(join(&parts, ","), "a,b,,c");
    assert_eq!(join(&vec![], ","), "");
    assert_eq!(trim("\u{2003} x y\t\n"), "x y");
    assert_eq!(strip_both("''a''", '\''), "a");
    assert_eq!(word_count("  one two\u{a0}three "), 3);
    assert!(begins("search", "sea"));
    assert!(holds_text("search", "arc"));
    assert!(!holds_text("search", "ark"));
}

#[test]
fn white_space_is_that_of_every_script() {
    for c in '\0'..=char::MAX {
        assert_eq!(is_white(c), c.is_whitespace(), "{:?}", c);
    }
}

#[test]
fn texts_are_ordered_by_code_point() {
    assert_eq!(order_text("abc", "abd"), Order::Less);
    assert_eq!(order_text("abc", "ab"), Order::Greater);
    assert_eq!(order_text("Z", "a"), Order::Less);
    assert_eq!(order_text("é", "é"), Order::Equal);
    assert_eq!(order_text("abd", "abc"), Order::Greater);
}

// ── numbers ──────────────────────────────────────────────────────────────

#[test]
fn a_text_writes_a_number_or_not() {
    for text in ["1", "-1.5", "+.5", "5.", "1e9", "1E-9", "2.5e+10", "inf", "-Infinity", "NaN"] {
        assert!(is_float(text), "{text}");
        assert!(text.parse::<f32>().is_ok(), "{text}");
    }
    for text in ["", ".", "-", "e9", "1e", "1e+", "--1", "1.2.3", "1 ", "infinite", "0x1", "1_0"] {
        assert!(!is_float(text), "{text}");
        assert!(text.parse::<f32>().is_err(), "{text}");
    }
}

#[test]
fn numbers_are_cut_toward_zero() {
    assert_eq!(to_i64((2.9f64).to_bits()), 2);
    assert_eq!(to_i64((-2.9f64).to_bits()), -2);
    assert_eq!(to_i64((1e300f64).to_bits()), i64::MAX);
    assert_eq!(to_i64((-1e300f64).to_bits()), i64::MIN);
    assert_eq!(to_i64(f64::NAN.to_bits()), 0);
    assert_eq!(to_size((7.5f64).to_bits()), 7);
    assert_eq!(to_size((-7.5f64).to_bits()), 0);
}

#[test]
fn whole_numbers_are_recognised() {
    assert!(whole((3.0f64).to_bits()));
    assert!(!whole((3.25f64).to_bits()));
    assert_eq!(whole_i64((-4.0f64).to_bits()), Some(-4));
    assert_eq!(whole_i64((0.5f64).to_bits()), None);
    assert_eq!(whole_i64(f64::INFINITY.to_bits()), None);
}

#[test]
fn an_integer_becomes_the_nearest_number() {
    for n in [0i64, 1, -1, 42, (1 << 53) + 1, (1 << 53) + 3, i64::MAX, i64::MIN] {
        assert_eq!(int_bits(n), (n as f64).to_bits());
    }
}

#[test]
fn numbers_are_ordered_and_nan_is_not() {
    let bits = |x: f64| x.to_bits();
    assert_eq!(order_real(bits(-1.5), bits(2.0)), Some(Order::Less));
    assert_eq!(order_real(bits(-1.5), bits(-2.0)), Some(Order::Greater));
    assert_eq!(order_real(bits(0.0), bits(-0.0)), Some(Order::Equal));
    assert_eq!(order_real(bits(f64::NAN), bits(1.0)), None);
}

#[test]
fn negation_changes_the_sign() {
    let n = number(2.5).negate();
    assert_eq!(f64::from_bits(n.bits), -2.5);
    assert_eq!(n.shown, "-2.5");
}

// ── the calendar ─────────────────────────────────────────────────────────

#[test]
fn division_rounds_down() {
    assert_eq!(floor_div(-7, 2), -4);
    assert_eq!(floor_mod(-7, 2), 1);
    assert_eq!(floor_div(7, 2), 3);
}

#[test]
fn dates_and_days_are_one_to_one() {
    assert_eq!(days_from_civil(1970, 1, 1), 0);
    assert_eq!(days_from_civil(2000, 3, 1), 11_017);
    assert_eq!(days_from_civil(1969, 12, 31), -1);
    for day in [-719_468i64, -1, 0, 59, 60, 11_016, 19_782, 100_000] {
        let d = date_of(day);
        assert_eq!(days_from_civil(d.year, d.month, d.day), day);
    }
    let leap = date_of(19_782);
    assert_eq!((leap.year, leap.month, leap.day), (2024, 2, 29));
}

#[test]
fn fields_of_an_instant() {
    assert_eq!(extract(TimeUnit::Year, LEAP_NOON), 2024);
    assert_eq!(extract(TimeUnit::Month, LEAP_NOON), 2);
    assert_eq!(extract(TimeUnit::Day, LEAP_NOON), 29);
    assert_eq!(extract(TimeUnit::Dow, LEAP_NOON), 4);
    assert_eq!(extract(TimeUnit::Hour, LEAP_NOON), 12);
    assert_eq!(extract(TimeUnit::Minute, LEAP_NOON), 34);
    assert_eq!(extract(TimeUnit::Second, LEAP_NOON), 56);
    assert_eq!(extract(TimeUnit::Epoch, -1), -1);
}

#[test]
fn an_instant_lies_in_its_unit() {
    assert_eq!(start_of(TimeUnit::Month, LEAP_NOON), Some(1_706_745_600_000_000));
    assert_eq!(end_of(TimeUnit::Month, LEAP_NOON), Some(1_709_251_200_000_000));
    assert_eq!(start_of(TimeUnit::Day, -1), Some(-86_400_000_000));
    assert_eq!(start_of(TimeUnit::Year, i64::MIN), None);
}

#[test]
fn truncating_twice_is_truncating_once() {
    for unit in [TimeUnit::Year, TimeUnit::Month, TimeUnit::Day, TimeUnit::Hour] {
        let once = date_trunc(unit, LEAP_NOON).unwrap();
        assert_eq!(date_trunc(unit, once).unwrap(), once);
        assert!(once <= LEAP_NOON);
        assert!(next_unit(unit, LEAP_NOON).unwrap() > LEAP_NOON);
    }
}

#[test]
fn truncation_keeps_the_order() {
    let early = date_trunc(TimeUnit::Day, LEAP_NOON - 86_400_000_000).unwrap();
    let late = date_trunc(TimeUnit::Day, LEAP_NOON).unwrap();
    assert_eq!(late - early, 86_400_000_000);
}

#[test]
fn truncation_has_no_weekday() {
    assert!(matches!(date_trunc(TimeUnit::Dow, LEAP_NOON), Err(SqlError::Unsupported(_))));
    assert!(!TimeUnit::Dow.truncates());
    assert!(TimeUnit::Second.truncates());
    assert_eq!(TimeUnit::parse("YEAR"), Some(TimeUnit::Year));
    assert_eq!(TimeUnit::parse("week"), None);
}

#[test]
fn instants_are_written_in_iso() {
    assert_eq!(format_timestamp(0), "1970-01-01T00:00:00Z");
    assert_eq!(format_timestamp(LEAP_NOON), "2024-02-29T12:34:56.789000Z");
    assert_eq!(format_timestamp(-1), "1969-12-31T23:59:59.999999Z");
    assert_eq!(format_date(LEAP_NOON), "2024-02-29");
}

#[test]
fn templates_have_six_fields() {
    assert_eq!(to_char(LEAP_NOON, "DD/MM/YYYY HH24:MI:SS").unwrap(), "29/02/2024 12:34:56");
    assert!(matches!(to_char(LEAP_NOON, "Mon"), Err(SqlError::Unsupported(_))));
}

#[test]
fn instants_are_read() {
    assert_eq!(parse_timestamp("2024-02-29T12:34:56.789Z").unwrap(), LEAP_NOON);
    assert_eq!(parse_timestamp("2024-02-29").unwrap(), 1_709_164_800_000_000);
    assert_eq!(parse_timestamp("2024-02-29 14:00:00+02:00").unwrap(), 1_709_208_000_000_000);
    assert!(parse_timestamp("2023-02-29").is_err());
    assert!(parse_timestamp("soon").is_err());
}

#[test]
fn what_is_written_is_read_back() {
    for t in [0i64, -1, LEAP_NOON, 1_706_745_600_000_000] {
        assert_eq!(parse_timestamp(&format_timestamp(t)).unwrap(), t);
    }
}

#[test]
fn intervals_have_a_fixed_length() {
    assert_eq!(parse_interval("7 days").unwrap(), 604_800_000_000);
    assert_eq!(parse_interval(" -1 HOUR ").unwrap(), -3_600_000_000);
    assert!(matches!(parse_interval("1 month"), Err(SqlError::Unsupported(_))));
    assert!(matches!(parse_interval("9223372036854775807 weeks"), Err(SqlError::Unsupported(_))));
}

#[test]
fn time_types_have_three_spellings() {
    assert!(is_time_type("TIMESTAMPTZ"));
    assert!(is_time_type("DATE"));
    assert!(!is_time_type("BIGINT"));
}

// ── string functions ─────────────────────────────────────────────────────

#[test]
fn positions_count_characters_from_one() {
    assert_eq!(length("añb"), 3);
    assert_eq!(substring("añbc", 2, Some(2)).unwrap(), "ñb");
    assert_eq!(substring("abc", 0, Some(2)).unwrap(), "a");
    assert_eq!(substring("abc", 2, None).unwrap(), "bc");
    assert!(substring("abc", 1, Some(-1)).is_err());
    assert_eq!(left("añbc", 2), "añ");
    assert_eq!(left("abc", -1), "ab");
    assert_eq!(right("abc", 2), "bc");
    assert_eq!(right("abc", -1), "bc");
    assert_eq!(position("añbc", "b"), 3);
    assert_eq!(position("abc", "x"), 0);
}

#[test]
fn parts_and_replacements() {
    assert_eq!(replace("a-b-c", "-", "+"), "a+b+c");
    assert_eq!(replace("abc", "", "x"), "xaxbxcx");
    assert_eq!(split_part("a-b-c", "-", 2).unwrap(), "b");
    assert_eq!(split_part("a-b-c", "-", 9).unwrap(), "");
    assert!(split_part("a-b-c", "-", 0).is_err());
}

#[test]
fn a_prefix_is_one_range() {
    assert_eq!(like_prefix("ab%"), Some("ab".to_string()));
    assert_eq!(like_prefix("a_b%"), None);
    assert_eq!(like_prefix("a%b%"), None);
    assert_eq!(like_prefix("ab"), None);
    assert!(matches!(prefix_successor("ab"), PrefixSuccessor::Bound(s) if s == "ac"));
    assert!(matches!(prefix_successor("é"), PrefixSuccessor::Bound(s) if s == "ê"));
    assert!(matches!(prefix_successor(""), PrefixSuccessor::Unbounded));
    assert!(matches!(prefix_successor("a\u{7f}"), PrefixSuccessor::NotUtf8));
}

// ── tables ───────────────────────────────────────────────────────────────

#[test]
fn settings_ignore_case_and_underscores() {
    assert_eq!(guc("DateStyle"), Some("ISO, MDY"));
    assert_eq!(guc_name("TIMEZONE"), Some("timezone"));
    assert_eq!(client_guc("search_path"), Some("\"$user\", public"));
    assert_eq!(guc("ef_search"), None);
    assert_eq!(guc("Standard_Conforming_Strings"), guc("standard_conforming_strings"));
}

#[test]
fn a_refused_word_says_why() {
    let (tier, reason) = lookup("pg_rewrite").unwrap();
    assert_eq!(tier, Tier::Three);
    assert!(reason.contains("CREATE VIEW"));
    assert!(lookup("frobnicate").is_none());
    match refuse("frobnicate") {
        SqlError::Refused { keyword, tier, reason } => {
            assert_eq!(keyword, "FROBNICATE");
            assert_eq!(tier, Tier::Three);
            assert_eq!(
                reason,
                "QL_CONTRACT: not a Tier-1 construct and not in the Tier-2/3 table; no atomic is named for it."
            );
        }
        other => panic!("{other:?}"),
    }
    assert!(matches!(
        multi_range("EXTRACT(MONTH)"),
        SqlError::Refused { keyword, tier: Tier::Two, .. } if keyword == "EXTRACT(MONTH)"
    ));
}

#[test]
fn a_set_is_ascending_and_unique() {
    assert_eq!(sorted_set(&vec![3, 1, 3, 2, 1]), vec![1, 2, 3]);
    assert_eq!(sorted_set(&vec![]), Vec::<u64>::new());
}

// ── values ───────────────────────────────────────────────────────────────

#[test]
fn values_are_written_as_json() {
    assert_eq!(Value::Text("a\"b\n\u{1}é".to_string()).json(), "\"a\\\"b\\n\\u0001é\"");
    assert_eq!(
        Value::Text("\\/\t\r\u{8}\u{c}\u{1f}\u{7f}".to_string()).json(),
        "\"\\\\/\\t\\r\\b\\f\\u001f\u{7f}\""
    );
    assert_eq!(Value::Int(-3).json(), "-3");
    assert_eq!(Value::Bool(true).json(), "true");
    assert_eq!(Value::Null.json(), "null");
    assert_eq!(Value::Real(number(1.0)).json(), "1.0");
}

#[test]
fn values_are_shown() {
    assert_eq!(shown(&SqlValue::Missing), "MISSING");
    assert_eq!(shown(&SqlValue::Null), "NULL");
    assert_eq!(shown(&SqlValue::Bool(false)), "FALSE");
    assert_eq!(shown(&SqlValue::Text("it's".to_string())), "'it's'");
    assert_eq!(shown(&SqlValue::Float(number(1.0))), "1");
    assert_eq!(shown(&SqlValue::Id(EntityId { collection: 3, sequence: 9 })), "3:9");
    let doc = JsonDoc { text: "{\"a\":1}".to_string(), array: false, numbers: None };
    assert_eq!(shown(&SqlValue::Json(doc)), "{\"a\":1}");
}

#[test]
fn kinds_have_names() {
    assert_eq!(Kind::Vector(3).named(), "Vector(3)");
    assert_eq!(Kind::Geo.named(), "Geo");
}

#[test]
fn tokens_are_written_as_a_statement_writes_them() {
    assert_eq!(Tok::Sym(Sym::HashLongArrow).written(), "#>>");
    assert_eq!(Tok::Quoted("a b".to_string()).written(), "\"a b\"");
    assert_eq!(Tok::Param(2).written(), "$2");
    assert_eq!(Tok::Eof.written(), "end of statement");
    assert_eq!(Tok::Word("from".to_string()).keyword(), Some("FROM".to_string()));
    assert_eq!(Tok::Str("from".to_string()).keyword(), None);
}
