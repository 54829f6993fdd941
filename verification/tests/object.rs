use todo_store::object::Object;
use todo_store::value::{Array, Value};

#[test]
fn new_object_is_empty() {
    let o = Object::new();
    assert_eq!(o.len(), 0);
    assert_eq!(o.get("id"), None);
    assert!(o.into_entries().is_empty());
}

#[test]
fn insert_appends_new_fields_in_order() {
    let mut o = Object::new();
    assert_eq!(o.insert("b".to_string(), Value::Number(1)), None);
    assert_eq!(o.insert("a".to_string(), Value::Number(2)), None);
    assert_eq!(o.insert("c".to_string(), Value::Number(3)), None);
    assert_eq!(o.len(), 3);
    let entries = o.into_entries();
    assert_eq!(
        entries,
        vec![
            ("b".to_string(), Value::Number(1)),
            ("a".to_string(), Value::Number(2)),
            ("c".to_string(), Value::Number(3)),
        ]
    );
}

#[test]
fn insert_replaces_in_place_and_returns_the_old_value() {
    let mut o = Object::new();
    o.insert("b".to_string(), Value::Number(1));
    o.insert("a".to_string(), Value::Number(2));
    assert_eq!(o.insert("b".to_string(), Value::Bool(true)), Some(Value::Number(1)));
    assert_eq!(o.len(), 2);
    assert_eq!(o.get("b"), Some(&Value::Bool(true)));
    assert_eq!(
        o.into_entries(),
        vec![("b".to_string(), Value::Bool(true)), ("a".to_string(), Value::Number(2))]
    );
}

#[test]
fn remove_returns_the_value_and_forgets_the_field() {
    let mut o = Object::new();
    o.insert("x".to_string(), Value::Strand("one".to_string()));
    o.insert("y".to_string(), Value::Null);
    assert_eq!(o.remove("x"), Some(Value::Strand("one".to_string())));
    assert_eq!(o.remove("x"), None);
    assert_eq!(o.len(), 1);
    assert_eq!(o.get("y"), Some(&Value::Null));
}

#[test]
fn remove_of_absent_field_changes_nothing() {
    let mut o = Object::new();
    o.insert("x".to_string(), Value::Number(1));
    assert_eq!(o.remove("z"), None);
    assert_eq!(o.len(), 1);
    assert_eq!(o.get("x"), Some(&Value::Number(1)));
}

#[test]
fn first_of_array_is_its_first_element() {
    let v = Value::Array(Array(vec![Value::Number(1), Value::Number(2), Value::Number(3)]));
    assert_eq!(v.first(), Some(Value::Number(1)));
}

#[test]
fn first_of_empty_array_is_nothing() {
    assert_eq!(Value::Array(Array(Vec::new())).first(), None);
}

#[test]
fn first_of_non_array_is_nothing() {
    assert_eq!(Value::Null.first(), None);
    assert_eq!(Value::Number(1).first(), None);
    assert_eq!(Value::Strand("abc".to_string()).first(), None);
    assert_eq!(Value::Object(Object::new()).first(), None);
}
