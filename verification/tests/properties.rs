use emit_elasticsearch::properties::{place_of, Place, Properties, Value};

fn names(properties: &Properties) -> Vec<String> {
    (0..properties.len()).map(|i| properties.name(i).to_string()).collect()
}

fn json(value: &Value) -> String {
    let mut out = String::new();
    value.push_json(&mut out);
    out
}

#[test]
fn new_properties_are_empty() {
    assert_eq!(Properties::new().len(), 0);
}

#[test]
fn properties_are_kept_in_the_order_of_their_names() {
    let mut properties = Properties::new();
    properties.insert("user", Value::Str("u".to_string()));
    properties.insert("number", Value::Number(1));
    properties.insert("zone", Value::Bool(true));
    properties.insert("Number", Value::Number(2));
    properties.insert("", Value::Number(3));
    properties.insert("numbers", Value::Number(4));
    assert_eq!(names(&properties), vec!["", "Number", "number", "numbers", "user", "zone"]);
    assert_eq!(json(properties.value(1)), "2");
    assert_eq!(json(properties.value(2)), "1");
    assert_eq!(json(properties.value(4)), "\"u\"");
}

#[test]
fn a_name_holds_its_last_value() {
    let mut properties = Properties::new();
    properties.insert("a", Value::Number(1));
    properties.insert("b", Value::Number(2));
    properties.insert("a", Value::Str("again".to_string()));
    assert_eq!(properties.len(), 2);
    assert_eq!(names(&properties), vec!["a", "b"]);
    assert_eq!(json(properties.value(0)), "\"again\"");
    assert_eq!(json(properties.value(1)), "2");
}

#[test]
fn names_are_ordered_by_their_bytes() {
    assert_eq!(place_of("a", "b"), Place::Before);
    assert_eq!(place_of("b", "a"), Place::After);
    assert_eq!(place_of("a", "a"), Place::Same);
    assert_eq!(place_of("", ""), Place::Same);
    assert_eq!(place_of("", "a"), Place::Before);
    assert_eq!(place_of("ab", "a"), Place::After);
    assert_eq!(place_of("a", "ab"), Place::Before);
    assert_eq!(place_of("Z", "a"), Place::Before);
    assert_eq!(place_of("z", "é"), Place::Before);
    assert_eq!(place_of("é", "e"), Place::After);
    for (a, b) in [("x", "y"), ("number", "numbers"), ("é", "z"), ("", "")] {
        let expected = match a.cmp(b) {
            std::cmp::Ordering::Less => Place::Before,
            std::cmp::Ordering::Equal => Place::Same,
            std::cmp::Ordering::Greater => Place::After,
        };
        assert_eq!(place_of(a, b), expected);
    }
}

#[test]
fn values_are_written_as_json() {
    assert_eq!(json(&Value::Str("a\\b".to_string())), "\"a\\\\b\"");
    assert_eq!(json(&Value::Str(String::new())), "\"\"");
    assert_eq!(json(&Value::Number(0)), "0");
    assert_eq!(json(&Value::Number(-15)), "-15");
    assert_eq!(json(&Value::Bool(true)), "true");
    assert_eq!(json(&Value::Bool(false)), "false");
}

#[test]
fn nested_values_are_written_as_objects() {
    assert_eq!(json(&Value::Object(Properties::new())), "{}");
    let mut inner = Properties::new();
    inner.insert("x", Value::Bool(true));
    let mut outer = Properties::new();
    outer.insert("b", Value::Number(1));
    outer.insert("a", Value::Object(inner));
    outer.insert("c", Value::Str("q\"".to_string()));
    assert_eq!(json(&Value::Object(outer)), "{\"a\":{\"x\":true},\"b\":1,\"c\":\"q\\\"\"}");
}

#[test]
fn members_have_commas_between_them() {
    let mut out = String::from("[");
    Properties::new().push_members(&mut out);
    out.push('|');
    let mut one = Properties::new();
    one.insert("k", Value::Number(1));
    one.push_members(&mut out);
    out.push('|');
    one.insert("j", Value::Number(2));
    one.insert("l", Value::Number(3));
    one.push_members(&mut out);
    assert_eq!(out, "[|\"k\":1|\"j\":2,\"k\":1,\"l\":3");
}

#[test]
fn a_value_is_found_by_its_name() {
    let mut properties = Properties::new();
    assert!(properties.get("a").is_none());
    properties.insert("b", Value::Number(2));
    properties.insert("a", Value::Number(1));
    properties.insert("c", Value::Bool(true));
    assert_eq!(json(properties.get("a").unwrap()), "1");
    assert_eq!(json(properties.get("b").unwrap()), "2");
    assert_eq!(json(properties.get("c").unwrap()), "true");
    assert!(properties.get("A").is_none());
    assert!(properties.get("").is_none());
    assert!(properties.get("ab").is_none());
    assert!(properties.get("d").is_none());
}
