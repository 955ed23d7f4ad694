use gcue::cells::{value_to_csv_field, value_to_table_cell};
use gcue::output::{
    csv_table, render_results, results_file_name, write_csv, write_json, write_results,
    ExportError,
};
use gcue::result::{NonEmptyResults, OutputFormat};
use gcue::value::{CanonicalValue, Float, Number, Object};

fn s(x: &str) -> CanonicalValue {
    CanonicalValue::String(x.to_string())
}

fn n(x: u64) -> CanonicalValue {
    CanonicalValue::Number(Number::PosInt(x))
}

fn b(x: bool) -> CanonicalValue {
    CanonicalValue::Bool(x)
}

fn arr(items: Vec<CanonicalValue>) -> CanonicalValue {
    CanonicalValue::Array(items)
}

fn obj(pairs: Vec<(&str, CanonicalValue)>) -> CanonicalValue {
    let mut o = Object::new();
    for (k, v) in pairs {
        o.insert(k.to_string(), v);
    }
    CanonicalValue::Object(o)
}

fn results_sample_one() -> NonEmptyResults {
    let results = vec![
        obj(vec![("language", s("Rust")), ("creator", s("Graydon Hoare")), ("year", n(2010))]),
        obj(vec![("language", s("Python")), ("creator", s("Guido van Rossum")), ("year", n(1991))]),
        obj(vec![("language", s("Go")), ("creator", s("Rob Pike")), ("year", n(2009))]),
    ];
    NonEmptyResults::try_from(results).expect("results should've been created")
}

fn results_sample_two() -> NonEmptyResults {
    let results = vec![
        obj(vec![
            ("language", s("Rust")),
            ("creators", arr(vec![s("Graydon Hoare")])),
            ("year", n(2010)),
            ("compiled", b(true)),
            ("features", obj(vec![("garbage_collection", b(false)), ("static_typing", b(true))])),
        ]),
        obj(vec![
            ("language", s("Go")),
            (
                "creators",
                arr(vec![s("Robert Griesemer"), s("Rob Pike"), s("Ken Thompson"), CanonicalValue::Null]),
            ),
            ("year", n(2009)),
            ("compiled", b(true)),
            ("features", obj(vec![("garbage_collection", b(true)), ("static_typing", b(true))])),
        ]),
        obj(vec![
            ("language", s("Python")),
            ("creator", CanonicalValue::Null),
            ("year", n(1991)),
            ("compiled", b(false)),
            (
                "features",
                obj(vec![("garbage_collection", b(true)), ("static_typing", CanonicalValue::Null)]),
            ),
        ]),
        obj(vec![
            ("language", s("Gleam")),
            ("creators", arr(vec![s("Louis Pilfold")])),
            ("year", n(2016)),
            ("compiled", b(true)),
            ("features", CanonicalValue::Null),
        ]),
    ];
    NonEmptyResults::try_from(results).expect("results should've been created")
}

#[test]
fn write_csv_writes_correct_headers_and_rows() {
    let results = results_sample_one();

    let buffer = write_csv(&results).expect("csv should've been written");

    let result = String::from_utf8(buffer).expect("string should've been built");
    assert_eq!(
        result,
        "creator,language,year\n\
         Graydon Hoare,Rust,2010\n\
         Guido van Rossum,Python,1991\n\
         Rob Pike,Go,2009\n"
    );
}

#[test]
fn write_csv_handles_non_strings_and_numbers() {
    let results = results_sample_two();

    let buffer = write_csv(&results).expect("csv should've been written");

    let result = String::from_utf8(buffer).expect("string should've been built");
    assert_eq!(
        result,
        "compiled,creators,features,language,year\n\
         true,\"[\"\"Graydon Hoare\"\"]\",\"{\"\"garbage_collection\"\":false,\"\"static_typing\"\":true}\",Rust,2010\n\
         true,\"[\"\"Robert Griesemer\"\",\"\"Rob Pike\"\",\"\"Ken Thompson\"\",null]\",\"{\"\"garbage_collection\"\":true,\"\"static_typing\"\":true}\",Go,2009\n\
         false,,\"{\"\"garbage_collection\"\":true,\"\"static_typing\"\":null}\",Python,1991\n\
         true,\"[\"\"Louis Pilfold\"\"]\",,Gleam,2016\n"
    );
}

#[test]
fn write_json_works_as_expected() {
    let results = results_sample_one();

    let buffer = write_json(&results).expect("json should've been written");

    let result = String::from_utf8(buffer).expect("string should've been built");
    assert_eq!(
        result,
        "[\n  {\n    \"creator\": \"Graydon Hoare\",\n    \"language\": \"Rust\",\n    \"year\": 2010\n  },\n  \
         {\n    \"creator\": \"Guido van Rossum\",\n    \"language\": \"Python\",\n    \"year\": 1991\n  },\n  \
         {\n    \"creator\": \"Rob Pike\",\n    \"language\": \"Go\",\n    \"year\": 2009\n  }\n]"
    );
}

#[test]
fn csv_shows_a_missing_key_and_null_as_empty_fields() {
    let results = vec![
        obj(vec![("language", s("Rust")), ("creator", s("Graydon Hoare")), ("year", n(2010))]),
        obj(vec![("language", s("Python")), ("creator", CanonicalValue::Null)]),
        obj(vec![("language", s("Go")), ("year", n(2009))]),
    ];
    let results = NonEmptyResults::try_from(results).expect("results should've been created");

    let result = String::from_utf8(write_csv(&results).unwrap()).unwrap();

    assert_eq!(result, "creator,language,year\nGraydon Hoare,Rust,2010\n,Python,\n,Go,2009\n");
}

#[test]
fn csv_drops_keys_that_the_first_row_lacks() {
    let results = vec![
        obj(vec![("a", n(1))]),
        obj(vec![("a", n(2)), ("b", n(3))]),
    ];
    let results = NonEmptyResults::try_from(results).expect("results should've been created");

    assert_eq!(String::from_utf8(write_csv(&results).unwrap()).unwrap(), "a\n1\n2\n");
}

#[test]
fn csv_over_a_first_row_that_is_no_object_fails() {
    let results = vec![s("invalid"), obj(vec![("language", s("Rust"))])];
    let results = NonEmptyResults::try_from(results).expect("results should've been created");

    assert_eq!(write_csv(&results), Err(ExportError::NotObjects));
    assert_eq!(csv_table(&results), Err(ExportError::NotObjects));
    assert_eq!(ExportError::NotObjects.message(), "expected results to be an array of objects");
    assert_eq!(
        write_results(&results, &OutputFormat::Csv, 0),
        Err(ExportError::NotObjects)
    );
}

#[test]
fn csv_over_a_later_row_that_is_no_object_fails() {
    let results = vec![obj(vec![("language", s("Rust"))]), n(3), s("x")];
    let results = NonEmptyResults::try_from(results).expect("results should've been created");

    assert_eq!(write_csv(&results), Err(ExportError::RowNotObject));
    assert_eq!(ExportError::RowNotObject.message(), "expected each result to be an object");
    assert_eq!(render_results(&results, &OutputFormat::Csv), Err(ExportError::RowNotObject));
}

#[test]
fn csv_table_holds_header_and_rows() {
    let table = csv_table(&results_sample_one()).unwrap();
    assert_eq!(
        table,
        vec![
            vec!["creator".to_string(), "language".to_string(), "year".to_string()],
            vec!["Graydon Hoare".to_string(), "Rust".to_string(), "2010".to_string()],
            vec!["Guido van Rossum".to_string(), "Python".to_string(), "1991".to_string()],
            vec!["Rob Pike".to_string(), "Go".to_string(), "2009".to_string()],
        ]
    );
}

#[test]
fn json_reproduces_two_objects_pretty_printed() {
    let results = vec![
        obj(vec![("language", s("Rust")), ("creator", s("Graydon Hoare")), ("year", n(2010))]),
        obj(vec![("language", s("Python")), ("creator", s("Guido van Rossum")), ("year", n(1991))]),
    ];
    let results = NonEmptyResults::try_from(results).expect("results should've been created");

    let result = String::from_utf8(write_json(&results).unwrap()).unwrap();

    assert_eq!(
        result,
        "[\n  {\n    \"creator\": \"Graydon Hoare\",\n    \"language\": \"Rust\",\n    \"year\": 2010\n  },\n  \
         {\n    \"creator\": \"Guido van Rossum\",\n    \"language\": \"Python\",\n    \"year\": 1991\n  }\n]"
    );
}

#[test]
fn json_takes_rows_that_are_no_objects() {
    let results = NonEmptyResults::try_from(vec![n(1), s("a\"b"), CanonicalValue::Null]).unwrap();
    assert_eq!(
        String::from_utf8(write_json(&results).unwrap()).unwrap(),
        "[\n  1,\n  \"a\\\"b\",\n  null\n]"
    );
}

#[test]
fn cells_differ_on_null_only() {
    assert_eq!(value_to_table_cell(&CanonicalValue::Null), "null");
    assert_eq!(value_to_csv_field(&CanonicalValue::Null), "");
    for v in [
        s("text"),
        s(""),
        b(true),
        b(false),
        n(0),
        CanonicalValue::Number(Number::NegInt(-5)),
        arr(vec![n(1), s("x")]),
        obj(vec![("k", CanonicalValue::Null)]),
    ] {
        assert_eq!(value_to_table_cell(&v), value_to_csv_field(&v));
    }
    assert_eq!(value_to_csv_field(&b(true)), "true");
    assert_eq!(value_to_csv_field(&b(false)), "false");
    assert_eq!(value_to_csv_field(&s("a,b")), "a,b");
    assert_eq!(value_to_table_cell(&n(18446744073709551615)), "18446744073709551615");
    assert_eq!(value_to_csv_field(&arr(vec![n(1), s("x")])), "[1,\"x\"]");
    let half = CanonicalValue::Number(Number::Float(Float::parse("0.5").unwrap()));
    assert_eq!(value_to_csv_field(&half), "0.5");
}

#[test]
fn file_name_is_the_time_to_the_second_and_the_extension() {
    assert_eq!(
        results_file_name(0, &OutputFormat::Csv),
        Some("1970-01-01-00-00-00.csv".to_string())
    );
    assert_eq!(
        results_file_name(1_700_000_000, &OutputFormat::Json),
        Some("2023-11-14-22-13-20.json".to_string())
    );
    assert_eq!(results_file_name(i64::MAX, &OutputFormat::Json), None);
}

#[test]
fn written_results_have_name_and_bytes() {
    let (name, bytes) = write_results(&results_sample_one(), &OutputFormat::Csv, 86_399).unwrap();
    assert_eq!(name, "1970-01-01-23-59-59.csv");
    assert_eq!(bytes, write_csv(&results_sample_one()).unwrap());
    let (name, bytes) = write_results(&results_sample_one(), &OutputFormat::Json, 86_400).unwrap();
    assert_eq!(name, "1970-01-02-00-00-00.json");
    assert_eq!(bytes, write_json(&results_sample_one()).unwrap());
    assert_eq!(
        write_results(&results_sample_one(), &OutputFormat::Json, i64::MIN),
        Err(ExportError::Timestamp)
    );
}

#[test]
fn rows_that_are_all_objects_are_always_written() {
    let cases = vec![
        vec![obj(vec![])],
        vec![obj(vec![]), obj(vec![("a", n(1))])],
        vec![obj(vec![("a", s(""))])],
        vec![obj(vec![("a", n(1))]), obj(vec![]), obj(vec![("b", n(2))])],
    ];
    let expected = ["\"\"\n\"\"\n", "\"\"\n\"\"\n\"\"\n", "a\n\"\"\n", "a\n1\n\"\"\n\"\"\n"];
    for (rows, want) in cases.into_iter().zip(expected) {
        let results = NonEmptyResults::try_from(rows).unwrap();
        let bytes = write_csv(&results).expect("rows that are all objects are written");
        assert_eq!(String::from_utf8(bytes).unwrap(), want);
    }
}

#[test]
fn csv_of_one_row_is_written_under_its_name() {
    let results = NonEmptyResults::try_from(vec![obj(vec![("a", n(1))])]).unwrap();
    let (name, bytes) = write_results(&results, &OutputFormat::Csv, 1_704_164_645).unwrap();
    assert_eq!(name, "2024-01-02-03-04-05.csv");
    assert_eq!(String::from_utf8(bytes).unwrap(), "a\n1\n");
    let (name, _) = write_results(&results, &OutputFormat::Json, 1_704_164_645).unwrap();
    assert_eq!(name, "2024-01-02-03-04-05.json");
}
