use vpg::value::TomlValue;

fn table(entries: Vec<(&str, TomlValue)>) -> TomlValue {
    TomlValue::Table(entries.into_iter().map(|(k, v)| (k.to_string(), v)).collect())
}

#[test]
fn lookups_read_tables_only() {
    let doc = table(vec![
        ("a", TomlValue::Integer(1)),
        ("b", TomlValue::String("x".to_string())),
        ("c", TomlValue::Boolean(true)),
        ("d", TomlValue::Float(2.5f64.to_bits())),
        ("e", TomlValue::Array(vec![TomlValue::Integer(3)])),
    ]);
    assert_eq!(doc.int_at("a"), Some(1));
    assert_eq!(doc.int_at("b"), None);
    assert_eq!(doc.str_at("b"), Some("x".to_string()));
    assert_eq!(doc.bool_at("c"), Some(true));
    assert_eq!(doc.float_at("d"), Some(2.5f64.to_bits()));
    assert_eq!(doc.array_at("e").map(|a| a.len()), Some(1));
    assert!(doc.get("missing").is_none());
    assert!(TomlValue::Integer(5).get("a").is_none());
}

#[test]
fn first_entry_wins() {
    let doc = table(vec![("k", TomlValue::Integer(1)), ("k", TomlValue::Integer(2))]);
    assert_eq!(doc.int_at("k"), Some(1));
}

#[test]
fn duplicate_is_deep() {
    let doc = table(vec![(
        "t",
        table(vec![("list", TomlValue::Array(vec![TomlValue::Datetime("1979-05-27".to_string())]))]),
    )]);
    let copy = doc.duplicate();
    match copy.get("t").and_then(|t| t.get("list")) {
        Some(TomlValue::Array(items)) => match &items[0] {
            TomlValue::Datetime(d) => assert_eq!(d, "1979-05-27"),
            _ => panic!("wrong item"),
        },
        _ => panic!("missing list"),
    }
}
