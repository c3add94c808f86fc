use mailboxvalidator::{Double, Member};

fn value(text: &str) -> serde_json::Value {
    serde_json::from_str(text).unwrap()
}

#[test]
fn null_is_seen_as_null() {
    assert_eq!(Member::of_value(&value("null")), Member::Null);
}

#[test]
fn booleans_are_seen_as_flags() {
    assert_eq!(Member::of_value(&value("true")), Member::Flag(true));
    assert_eq!(Member::of_value(&value("false")), Member::Flag(false));
}

#[test]
fn strings_are_seen_as_text() {
    assert_eq!(Member::of_value(&value("\"abc\"")), Member::Text(String::from("abc")));
    assert_eq!(Member::of_value(&value("\"\"")), Member::Text(String::new()));
    assert_eq!(Member::of_value(&value("\"true\"")), Member::Text(String::from("true")));
}

#[test]
fn small_integers_have_both_readings() {
    assert_eq!(
        Member::of_value(&value("100")),
        Member::Number { integer: Some(100), double: Double { bits: 100.0f64.to_bits() } }
    );
    assert_eq!(
        Member::of_value(&value("-7")),
        Member::Number { integer: Some(-7), double: Double { bits: (-7.0f64).to_bits() } }
    );
    assert_eq!(
        Member::of_value(&value("0")),
        Member::Number { integer: Some(0), double: Double { bits: 0 } }
    );
}

#[test]
fn integer_bounds_of_the_integer_reading() {
    assert_eq!(
        Member::of_value(&value("9223372036854775807")).to_integer(),
        Some(i64::MAX)
    );
    assert_eq!(
        Member::of_value(&value("-9223372036854775808")).to_integer(),
        Some(i64::MIN)
    );
    assert_eq!(Member::of_value(&value("9223372036854775808")).to_integer(), None);
    assert_eq!(
        Member::of_value(&value("9223372036854775808")).to_double(),
        Some(Double { bits: 9223372036854775808.0f64.to_bits() })
    );
}

#[test]
fn real_numbers_have_no_integer_reading() {
    assert_eq!(
        Member::of_value(&value("0.25")),
        Member::Number { integer: None, double: Double { bits: 0.25f64.to_bits() } }
    );
    assert_eq!(
        Member::of_value(&value("100.0")),
        Member::Number { integer: None, double: Double { bits: 100.0f64.to_bits() } }
    );
    assert_eq!(
        Member::of_value(&value("1e2")),
        Member::Number { integer: None, double: Double { bits: 100.0f64.to_bits() } }
    );
}

#[test]
fn arrays_and_objects_are_seen_as_other() {
    assert_eq!(Member::of_value(&value("[]")), Member::Other);
    assert_eq!(Member::of_value(&value("[1, 2]")), Member::Other);
    assert_eq!(Member::of_value(&value("{}")), Member::Other);
    assert_eq!(Member::of_value(&value("{\"a\": 1}")), Member::Other);
}

#[test]
fn read_finds_the_member_under_the_key() {
    let doc = value("{\"a\": true, \"b\": \"x\", \"c\": null, \"d\": [1], \"e\": 5}");
    assert_eq!(Member::read(&doc, "a"), Member::Flag(true));
    assert_eq!(Member::read(&doc, "b"), Member::Text(String::from("x")));
    assert_eq!(Member::read(&doc, "c"), Member::Null);
    assert_eq!(Member::read(&doc, "d"), Member::Other);
    assert_eq!(Member::read(&doc, "e").to_integer(), Some(5));
}

#[test]
fn read_misses_where_the_key_is_absent() {
    let doc = value("{\"a\": true}");
    assert_eq!(Member::read(&doc, "b"), Member::Missing);
    assert_eq!(Member::read(&doc, "A"), Member::Missing);
    assert_eq!(Member::read(&doc, ""), Member::Missing);
}

#[test]
fn read_misses_where_the_value_is_no_object() {
    assert_eq!(Member::read(&value("[true]"), "0"), Member::Missing);
    assert_eq!(Member::read(&value("\"a\""), "a"), Member::Missing);
    assert_eq!(Member::read(&value("null"), "a"), Member::Missing);
    assert_eq!(Member::read(&value("3"), "a"), Member::Missing);
}

#[test]
fn text_rule_takes_strings_only() {
    assert_eq!(Member::Text(String::from("a")).into_text(), Some(String::from("a")));
    assert_eq!(Member::Missing.into_text(), None);
    assert_eq!(Member::Null.into_text(), None);
    assert_eq!(Member::Flag(true).into_text(), None);
    assert_eq!(Member::Number { integer: Some(1), double: Double { bits: 0 } }.into_text(), None);
    assert_eq!(Member::Other.into_text(), None);
}

#[test]
fn flag_rule_takes_booleans_and_lets_absence_pass() {
    assert_eq!(Member::Flag(true).to_flag(), Some(Some(true)));
    assert_eq!(Member::Flag(false).to_flag(), Some(Some(false)));
    assert_eq!(Member::Missing.to_flag(), Some(None));
    assert_eq!(Member::Null.to_flag(), Some(None));
    assert_eq!(Member::Text(String::from("true")).to_flag(), None);
    assert_eq!(Member::Number { integer: Some(1), double: Double { bits: 0 } }.to_flag(), None);
    assert_eq!(Member::Other.to_flag(), None);
}

#[test]
fn integer_rule_takes_integers_only() {
    assert_eq!(
        Member::Number { integer: Some(-3), double: Double { bits: 9 } }.to_integer(),
        Some(-3)
    );
    assert_eq!(Member::Number { integer: None, double: Double { bits: 9 } }.to_integer(), None);
    assert_eq!(Member::Missing.to_integer(), None);
    assert_eq!(Member::Null.to_integer(), None);
    assert_eq!(Member::Flag(true).to_integer(), None);
    assert_eq!(Member::Text(String::from("1")).to_integer(), None);
    assert_eq!(Member::Other.to_integer(), None);
}

#[test]
fn double_rule_takes_every_number() {
    assert_eq!(
        Member::Number { integer: Some(-3), double: Double { bits: 9 } }.to_double(),
        Some(Double { bits: 9 })
    );
    assert_eq!(
        Member::Number { integer: None, double: Double { bits: 11 } }.to_double(),
        Some(Double { bits: 11 })
    );
    assert_eq!(Member::Missing.to_double(), None);
    assert_eq!(Member::Null.to_double(), None);
    assert_eq!(Member::Flag(true).to_double(), None);
    assert_eq!(Member::Text(String::from("1.5")).to_double(), None);
    assert_eq!(Member::Other.to_double(), None);
}
