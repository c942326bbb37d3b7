//! Rendering values as source literals, the metadata statement, and the
//! assembled compilation unit.

use typster::datetime::Datetime;
use typster::render::value_to_typst_repr;
use typster::{assemble, generate_document_metadata, TypstError, Value};

fn pairs(ps: Vec<(&str, &str)>) -> Vec<(String, String)> {
    ps.into_iter().map(|(k, v)| (k.to_string(), v.to_string())).collect()
}

#[test]
fn scalars_render_canonically() {
    assert_eq!(value_to_typst_repr(&Value::Absent), "none");
    assert_eq!(value_to_typst_repr(&Value::Auto), "auto");
    assert_eq!(value_to_typst_repr(&Value::Bool(true)), "true");
    assert_eq!(value_to_typst_repr(&Value::Bool(false)), "false");
    assert_eq!(value_to_typst_repr(&Value::Int(0)), "0");
    assert_eq!(value_to_typst_repr(&Value::Int(-42)), "-42");
    assert_eq!(value_to_typst_repr(&Value::Int(i64::MIN)), "-9223372036854775808");
    let x: f64 = 1.5;
    assert_eq!(value_to_typst_repr(&Value::Float(x.to_bits(), x.to_string())), "1.5");
}

#[test]
fn strings_render_quoted_with_escapes() {
    assert_eq!(
        value_to_typst_repr(&Value::Str("A \"B\"".to_string())),
        "\"A \\\"B\\\"\""
    );
    assert_eq!(value_to_typst_repr(&Value::Str(String::new())), "\"\"");
}

#[test]
fn arrays_render_parenthesized() {
    let v = Value::Array(vec![Value::Int(1), Value::Int(2), Value::Int(3)]);
    assert_eq!(value_to_typst_repr(&v), "(1, 2, 3)");
    assert_eq!(value_to_typst_repr(&Value::Array(vec![])), "()");
}

#[test]
fn dict_keys_are_always_quoted() {
    let v = Value::Dict(vec![("2025-01".to_string(), Value::Int(7))]);
    assert_eq!(value_to_typst_repr(&v), "(\"2025-01\": 7)");
}

#[test]
fn dict_keys_escape_backslash_and_quote() {
    let v = Value::Dict(vec![("a\\b\"c".to_string(), Value::Bool(true))]);
    assert_eq!(value_to_typst_repr(&v), "(\"a\\\\b\\\"c\": true)");
}

#[test]
fn datetimes_render_only_present_fields() {
    let full = Datetime::from_ymd_hms(2025, 1, 2, 3, 4, 5).unwrap();
    assert_eq!(
        value_to_typst_repr(&Value::Datetime(full)),
        "datetime(year: 2025, month: 1, day: 2, hour: 3, minute: 4, second: 5)"
    );
    let date_only = Datetime::from_ymd(-44, 3, 15).unwrap();
    assert_eq!(
        value_to_typst_repr(&Value::Datetime(date_only)),
        "datetime(year: -44, month: 3, day: 15)"
    );
    let time_only = Datetime::from_hms(23, 59, 59).unwrap();
    assert_eq!(
        value_to_typst_repr(&Value::Datetime(time_only)),
        "datetime(hour: 23, minute: 59, second: 59)"
    );
}

#[test]
fn metadata_title_escapes_inner_quote_once() {
    let stmt = generate_document_metadata(&pairs(vec![("title", "A \"B\"")]));
    assert_eq!(stmt, "#set document(title: \"A \\\"B\\\"\")\n");
}

#[test]
fn metadata_fields_come_in_fixed_order() {
    let stmt = generate_document_metadata(&pairs(vec![
        ("date", "auto"),
        ("author", "Ada"),
        ("title", "T"),
    ]));
    assert_eq!(
        stmt,
        "#set document(title: \"T\", author: \"Ada\", date: auto)\n"
    );
}

#[test]
fn metadata_keywords_split_and_trim() {
    let stmt = generate_document_metadata(&pairs(vec![("keywords", "alpha, beta ,gamma")]));
    assert_eq!(
        stmt,
        "#set document(keywords: (\"alpha\", \"beta\", \"gamma\"))\n"
    );
}

#[test]
fn metadata_date_tokens_are_case_insensitive() {
    assert_eq!(
        generate_document_metadata(&pairs(vec![("date", "AUTO")])),
        "#set document(date: auto)\n"
    );
    assert_eq!(
        generate_document_metadata(&pairs(vec![("date", "None")])),
        "#set document(date: none)\n"
    );
}

#[test]
fn metadata_other_date_text_contributes_nothing() {
    assert_eq!(generate_document_metadata(&pairs(vec![("date", "2024-01-01")])), "");
}

#[test]
fn metadata_unrecognized_keys_are_ignored() {
    assert_eq!(generate_document_metadata(&pairs(vec![("publisher", "x")])), "");
    assert_eq!(generate_document_metadata(&pairs(vec![])), "");
}

#[test]
fn assembled_source_has_fixed_order() {
    let metadata = pairs(vec![("title", "T")]);
    let variables = vec![
        ("a".to_string(), Value::Int(1)),
        ("b".to_string(), Value::Str("x".to_string())),
    ];
    let text = assemble::assemble_source("= Hello", &metadata, &variables);
    assert_eq!(
        text,
        "#set document(title: \"T\")\n#let a = 1\n#let b = \"x\"\n\n= Hello"
    );
}

#[test]
fn empty_metadata_and_variables_contribute_nothing() {
    let text = assemble::assemble_source("= Hello", &vec![], &vec![]);
    assert_eq!(text, "= Hello");
}

#[test]
fn error_messages_carry_their_kind_prefix() {
    assert_eq!(
        TypstError::CompileError("boom".to_string()).message(),
        "Compilation error: boom"
    );
    assert_eq!(TypstError::RenderError("r".to_string()).message(), "Render error: r");
    assert_eq!(TypstError::PackageError("p".to_string()).message(), "Package error: p");
    assert_eq!(TypstError::IoError("i".to_string()).message(), "IO error: i");
    assert_eq!(
        TypstError::InvalidInput("v".to_string()).message(),
        "Invalid input: v"
    );
}
