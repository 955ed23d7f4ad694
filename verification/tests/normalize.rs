use gcue::document::{document_to_value, number_to_value, DocFloat, DocNumber, Document};
use gcue::encode::compact_json;
use gcue::value::{CanonicalValue, Float, Number, Object};

fn float(x: f64) -> DocNumber {
    let text = format!("{:?}", x);
    DocNumber::Float(DocFloat::new(x.to_bits(), &text).expect("the text should denote the double"))
}

fn get_document_with_numbers(values: Vec<(&str, DocNumber)>) -> Document {
    let mut entries = Vec::new();
    for (key, value) in values {
        entries.push((key.to_string(), Document::Number(value)));
    }
    Document::Object(entries)
}

fn pos(n: u64) -> Document {
    Document::Number(DocNumber::PosInt(n))
}

fn text(s: &str) -> Document {
    Document::String(s.to_string())
}

fn object(entries: Vec<(&str, Document)>) -> Document {
    Document::Object(entries.into_iter().map(|(k, v)| (k.to_string(), v)).collect())
}

#[test]
fn document_to_value_handles_all_primitive_types() {
    let doc = get_document_with_numbers(vec![
        ("pos_int_42", DocNumber::PosInt(42)),
        ("pos_int_zero", DocNumber::PosInt(0)),
        ("pos_int_max", DocNumber::PosInt(u64::MAX)),
        ("neg_int_minus_42", DocNumber::NegInt(-42)),
        ("neg_int_minus_1", DocNumber::NegInt(-1)),
        ("neg_int_min", DocNumber::NegInt(i64::MIN)),
        ("pos_float", float(2.71)),
        ("neg_float", float(-2.71)),
        ("not_a_number", float(f64::NAN)),
        ("pos_infinity", float(f64::INFINITY)),
        ("neg_infinity", float(f64::NEG_INFINITY)),
    ]);

    let result = document_to_value(&doc);

    assert_eq!(
        compact_json(&result),
        "{\"neg_float\":-2.71,\"neg_infinity\":null,\"neg_int_min\":-9223372036854775808,\
         \"neg_int_minus_1\":-1,\"neg_int_minus_42\":-42,\"not_a_number\":null,\
         \"pos_float\":2.71,\"pos_infinity\":null,\"pos_int_42\":42,\
         \"pos_int_max\":18446744073709551615,\"pos_int_zero\":0}"
    );
}

#[test]
fn document_to_value_handles_string_and_boolean_types() {
    let doc = object(vec![
        ("string", text("hello world")),
        ("empty_string", Document::String(String::new())),
        ("bool_true", Document::Bool(true)),
        ("bool_false", Document::Bool(false)),
        ("null_value", Document::Null),
    ]);

    let result = document_to_value(&doc);

    assert_eq!(
        compact_json(&result),
        "{\"bool_false\":false,\"bool_true\":true,\"empty_string\":\"\",\"null_value\":null,\
         \"string\":\"hello world\"}"
    );
}

#[test]
fn document_to_value_handles_empty_collections() {
    let values: Vec<Document> = ["value-1", "value-2"].iter().map(|v| text(v)).collect();
    let doc = Document::Array(values);

    let result = document_to_value(&doc);

    assert_eq!(compact_json(&result), "[\"value-1\",\"value-2\"]");
    assert_eq!(
        result,
        CanonicalValue::Array(vec![
            CanonicalValue::String("value-1".to_string()),
            CanonicalValue::String("value-2".to_string()),
        ])
    );
}

#[test]
fn document_to_value_handles_array_at_root() {
    let doc = object(vec![
        ("empty_object", Document::Object(Vec::new())),
        ("empty_array", Document::Array(vec![])),
    ]);

    let result = document_to_value(&doc);

    assert_eq!(compact_json(&result), "{\"empty_array\":[],\"empty_object\":{}}");
}

#[test]
fn document_to_value_handles_nested_structures() {
    let inner_user = object(vec![("id", pos(1)), ("active", Document::Bool(true))]);
    let obj1 = object(vec![("id", pos(1)), ("name", text("First"))]);
    let obj2 = object(vec![("id", pos(2)), ("name", text("Second"))]);
    let level3 = object(vec![("value", pos(999))]);
    let level2 = object(vec![("nested", level3)]);
    let root = object(vec![
        ("object_in_object", inner_user),
        ("array_of_objects", Document::Array(vec![obj1, obj2])),
        (
            "object_with_array",
            object(vec![("items", Document::Array(vec![text("a"), text("b")]))]),
        ),
        ("deep_nesting", object(vec![("level2", level2)])),
    ]);

    let result = document_to_value(&root);

    assert_eq!(
        compact_json(&result),
        "{\"array_of_objects\":[{\"id\":1,\"name\":\"First\"},{\"id\":2,\"name\":\"Second\"}],\
         \"deep_nesting\":{\"level2\":{\"nested\":{\"value\":999}}},\
         \"object_in_object\":{\"active\":true,\"id\":1},\
         \"object_with_array\":{\"items\":[\"a\",\"b\"]}}"
    );
}

#[test]
fn integers_round_trip_over_both_ranges() {
    for u in [0u64, 1, 42, i64::MAX as u64, i64::MAX as u64 + 1, u64::MAX] {
        assert_eq!(
            number_to_value(&DocNumber::PosInt(u)),
            CanonicalValue::Number(Number::PosInt(u))
        );
    }
    for i in [i64::MIN, -42, -1] {
        assert_eq!(
            number_to_value(&DocNumber::NegInt(i)),
            CanonicalValue::Number(Number::NegInt(i))
        );
    }
    assert_eq!(
        compact_json(&number_to_value(&DocNumber::NegInt(i64::MIN))),
        "-9223372036854775808"
    );
    assert_eq!(
        compact_json(&number_to_value(&DocNumber::PosInt(u64::MAX))),
        "18446744073709551615"
    );
}

#[test]
fn signed_integer_that_is_not_negative_is_held_as_unsigned() {
    assert_eq!(
        number_to_value(&DocNumber::NegInt(7)),
        CanonicalValue::Number(Number::PosInt(7))
    );
    assert_eq!(number_to_value(&DocNumber::NegInt(0)), CanonicalValue::Number(Number::PosInt(0)));
}

#[test]
fn doubles_that_are_not_finite_become_null() {
    for x in [f64::NAN, f64::INFINITY, f64::NEG_INFINITY, -f64::NAN] {
        assert_eq!(number_to_value(&float(x)), CanonicalValue::Null);
    }
}

#[test]
fn finite_doubles_keep_their_value() {
    for x in [0.5f64, -2.71, 1e300, 5.0, f64::MIN_POSITIVE, f64::MAX, -0.0] {
        match number_to_value(&float(x)) {
            CanonicalValue::Number(Number::Float(f)) => {
                assert_eq!(f.bits(), x.to_bits());
                assert_eq!(f64::from_bits(f.bits()), x);
            }
            other => panic!("expected a double, got {:?}", other),
        }
    }
    assert_eq!(compact_json(&number_to_value(&float(5.0))), "5.0");
    assert_eq!(compact_json(&number_to_value(&float(2.71))), "2.71");
}

#[test]
fn doc_float_refuses_text_that_does_not_denote_the_double() {
    assert!(DocFloat::new(2.71f64.to_bits(), "2.72").is_none());
    assert!(DocFloat::new(2.71f64.to_bits(), "abc").is_none());
    assert!(DocFloat::new(5.0f64.to_bits(), "5").is_none());
    assert!(DocFloat::new(2.71f64.to_bits(), "2.710").is_some());
    assert!(DocFloat::new(f64::NAN.to_bits(), "").is_some());
    assert_eq!(DocFloat::new(f64::INFINITY.to_bits(), "inf").unwrap().bits(), 0x7ff0_0000_0000_0000);
}

#[test]
fn float_parse_reads_doubles_only() {
    assert_eq!(Float::parse("2.5").unwrap().bits(), 2.5f64.to_bits());
    assert_eq!(Float::parse("1e3").unwrap().bits(), 1000f64.to_bits());
    assert_eq!(Float::parse("2.5").unwrap().text(), "2.5");
    assert!(Float::parse("25").is_none());
    assert!(Float::parse("NaN").is_none());
    assert!(Float::parse("").is_none());
}

#[test]
fn later_entry_of_a_key_counts() {
    let doc = object(vec![("a", pos(1)), ("b", pos(2)), ("a", pos(3))]);
    assert_eq!(compact_json(&document_to_value(&doc)), "{\"a\":3,\"b\":2}");
}

#[test]
fn object_keeps_keys_in_order() {
    let mut o = Object::new();
    o.insert("language".to_string(), CanonicalValue::String("Rust".to_string()));
    o.insert("creator".to_string(), CanonicalValue::String("Graydon Hoare".to_string()));
    o.insert("year".to_string(), CanonicalValue::Null);
    o.insert("Zeta".to_string(), CanonicalValue::Bool(true));
    o.insert("\u{e9}t\u{e9}".to_string(), CanonicalValue::Bool(false));
    assert_eq!(o.len(), 5);
    let keys: Vec<&str> = (0..o.len()).map(|i| o.key(i).as_str()).collect();
    assert_eq!(keys, vec!["Zeta", "creator", "language", "year", "\u{e9}t\u{e9}"]);
    let mut sorted = keys.clone();
    sorted.sort();
    assert_eq!(keys, sorted);
}

#[test]
fn object_insert_replaces_and_get_finds() {
    let mut o = Object::new();
    assert_eq!(o.len(), 0);
    assert_eq!(o.get("a"), None);
    o.insert("b".to_string(), CanonicalValue::Bool(true));
    o.insert("a".to_string(), CanonicalValue::Null);
    o.insert("b".to_string(), CanonicalValue::Bool(false));
    assert_eq!(o.len(), 2);
    assert_eq!(o.get("b"), Some(&CanonicalValue::Bool(false)));
    assert_eq!(o.get("a"), Some(&CanonicalValue::Null));
    assert_eq!(o.get("c"), None);
    assert_eq!(o.get(""), None);
    assert_eq!(o.value(0), &CanonicalValue::Null);
    assert_eq!(o.key(1).as_str(), "b");
}
