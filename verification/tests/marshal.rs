//! Marshalling: scalar round trips, calendar records, and path-annotated
//! failures.

use typster::{term_to_value, terms_to_dict, HostTerm, TypstError, Value};

fn mapping(pairs: Vec<(&str, HostTerm)>) -> HostTerm {
    HostTerm::Mapping(pairs.into_iter().map(|(k, v)| (k.to_string(), v)).collect())
}

fn date_record(fields: Vec<(&str, i64)>) -> HostTerm {
    let mut pairs = vec![("__struct__", HostTerm::Atom("Elixir.Date".to_string()))];
    let ints: Vec<(&str, HostTerm)> =
        fields.into_iter().map(|(k, v)| (k, HostTerm::Int(v))).collect();
    pairs.extend(ints);
    mapping(pairs)
}

fn datetime_record(fields: Vec<(&str, i64)>) -> HostTerm {
    let mut pairs = vec![("__struct__", HostTerm::Atom("Elixir.DateTime".to_string()))];
    let ints: Vec<(&str, HostTerm)> =
        fields.into_iter().map(|(k, v)| (k, HostTerm::Int(v))).collect();
    pairs.extend(ints);
    mapping(pairs)
}

#[test]
fn bool_round_trips_and_is_never_an_integer() {
    assert_eq!(term_to_value(&HostTerm::Bool(true)).unwrap(), Value::Bool(true));
    assert_eq!(term_to_value(&HostTerm::Bool(false)).unwrap(), Value::Bool(false));
}

#[test]
fn integers_round_trip_without_loss() {
    assert_eq!(term_to_value(&HostTerm::Int(i64::MAX)).unwrap(), Value::Int(i64::MAX));
    assert_eq!(term_to_value(&HostTerm::Int(i64::MIN)).unwrap(), Value::Int(i64::MIN));
    assert_eq!(term_to_value(&HostTerm::Int(0)).unwrap(), Value::Int(0));
}

#[test]
fn floats_round_trip_bit_exactly() {
    let x: f64 = 0.1 + 0.2;
    let term = HostTerm::Float(x.to_bits(), x.to_string());
    match term_to_value(&term).unwrap() {
        Value::Float(bits, text) => {
            assert_eq!(f64::from_bits(bits), x);
            assert_eq!(text, x.to_string());
        }
        other => panic!("expected a float value, got {:?}", other),
    }
}

#[test]
fn strings_round_trip() {
    let term = HostTerm::Text("héllo \"world\"".to_string());
    assert_eq!(
        term_to_value(&term).unwrap(),
        Value::Str("héllo \"world\"".to_string())
    );
}

#[test]
fn lists_and_maps_recurse() {
    let term = HostTerm::List(vec![
        HostTerm::Int(1),
        mapping(vec![("k", HostTerm::Bool(true))]),
    ]);
    let value = term_to_value(&term).unwrap();
    assert_eq!(
        value,
        Value::Array(vec![
            Value::Int(1),
            Value::Dict(vec![("k".to_string(), Value::Bool(true))]),
        ])
    );
}

#[test]
fn date_record_converts() {
    let term = date_record(vec![("year", 2024), ("month", 2), ("day", 29)]);
    match term_to_value(&term).unwrap() {
        Value::Datetime(dt) => {
            let date = dt.date.unwrap();
            assert_eq!((date.year, date.month, date.day), (2024, 2, 29));
            assert!(dt.time.is_none());
        }
        other => panic!("expected a datetime value, got {:?}", other),
    }
}

#[test]
fn datetime_record_converts() {
    let term = datetime_record(vec![
        ("year", 2025),
        ("month", 1),
        ("day", 2),
        ("hour", 3),
        ("minute", 4),
        ("second", 5),
    ]);
    match term_to_value(&term).unwrap() {
        Value::Datetime(dt) => {
            let date = dt.date.unwrap();
            let time = dt.time.unwrap();
            assert_eq!((date.year, date.month, date.day), (2025, 1, 2));
            assert_eq!((time.hour, time.minute, time.second), (3, 4, 5));
        }
        other => panic!("expected a datetime value, got {:?}", other),
    }
}

#[test]
fn date_missing_year_names_field_and_kind() {
    let term = date_record(vec![("month", 1), ("day", 2)]);
    let err = term_to_value(&term).unwrap_err();
    assert_eq!(err.message, "Date missing year field");
    assert_eq!(err.path_string(), "year");
}

#[test]
fn datetime_missing_hour_names_field_and_kind() {
    let term = datetime_record(vec![("year", 2025), ("month", 1), ("day", 2)]);
    let err = term_to_value(&term).unwrap_err();
    assert_eq!(err.message, "DateTime missing hour field");
    assert_eq!(err.path_string(), "hour");
}

#[test]
fn nonexistent_month_is_rejected_not_clamped() {
    let term = date_record(vec![("year", 2024), ("month", 13), ("day", 5)]);
    let err = term_to_value(&term).unwrap_err();
    assert_eq!(err.message, "Invalid date values: year=2024, month=13, day=5");
}

#[test]
fn february_thirtieth_is_rejected() {
    let term = date_record(vec![("year", 2023), ("month", 2), ("day", 29)]);
    let err = term_to_value(&term).unwrap_err();
    assert_eq!(err.message, "Invalid date values: year=2023, month=2, day=29");
}

#[test]
fn array_failure_path_names_index_and_field() {
    let term = HostTerm::List(vec![
        HostTerm::Int(1),
        HostTerm::Text("x".to_string()),
        date_record(vec![("month", 1), ("day", 2)]),
    ]);
    let err = term_to_value(&term).unwrap_err();
    assert_eq!(err.path_string(), "[2].year");
    assert_eq!(err.message, "Date missing year field");
}

#[test]
fn unsupported_shape_names_its_type() {
    let err = term_to_value(&HostTerm::Pid).unwrap_err();
    assert_eq!(err.message, "Unsupported host value type 'pid'");
    assert_eq!(err.path_string(), "");
    let err = term_to_value(&HostTerm::Tuple).unwrap_err();
    assert_eq!(err.message, "Unsupported host value type 'tuple'");
}

#[test]
fn nested_map_failure_composes_dotted_path() {
    let inner = HostTerm::List(vec![HostTerm::Pid]);
    let term = mapping(vec![("a", inner)]);
    let err = term_to_value(&term).unwrap_err();
    assert_eq!(err.path_string(), "a[0]");
    assert_eq!(
        err.describe(),
        "Unsupported host value type 'pid' at path 'a[0]'"
    );
}

#[test]
fn unknown_tagged_record_becomes_mapping_without_tag() {
    let term = mapping(vec![
        ("__struct__", HostTerm::Atom("Elixir.Money".to_string())),
        ("amount", HostTerm::Int(7)),
    ]);
    assert_eq!(
        term_to_value(&term).unwrap(),
        Value::Dict(vec![("amount".to_string(), Value::Int(7))])
    );
}

#[test]
fn variables_bundle_must_be_a_mapping() {
    let err = terms_to_dict(&HostTerm::Int(3)).unwrap_err();
    match err {
        TypstError::InvalidInput(message) => {
            assert_eq!(message, "Expected a map for variables")
        }
        other => panic!("expected invalid input, got {:?}", other),
    }
}

#[test]
fn variables_bundle_converts_in_order() {
    let term = mapping(vec![
        ("a", HostTerm::Int(1)),
        ("b", HostTerm::Bool(false)),
    ]);
    let dict = terms_to_dict(&term).unwrap();
    assert_eq!(
        dict,
        vec![
            ("a".to_string(), Value::Int(1)),
            ("b".to_string(), Value::Bool(false)),
        ]
    );
}

#[test]
fn variables_bundle_failure_names_the_variable() {
    let term = mapping(vec![("ok", HostTerm::Int(1)), ("bad", HostTerm::Function)]);
    let err = terms_to_dict(&term).unwrap_err();
    match err {
        TypstError::InvalidInput(message) => assert_eq!(
            message,
            "Unsupported host value type 'function' at path 'bad'"
        ),
        other => panic!("expected invalid input, got {:?}", other),
    }
}

#[test]
fn type_names_match_host_shapes() {
    assert_eq!(typster::get_term_type_name(&HostTerm::Text("x".to_string())), "binary");
    assert_eq!(typster::get_term_type_name(&HostTerm::Unknown), "unknown");
    assert_eq!(typster::get_term_type_name(&HostTerm::Atom("a".to_string())), "atom");
    assert_eq!(typster::get_term_type_name(&HostTerm::Int(1)), "integer");
}
