use serco::document::{document_of, tree_of, DEPTH};
use serco::value::Tree;
use serde_json::{Number, Value};

fn record(fields: Vec<(&str, Tree)>) -> Tree {
    Tree::Record(fields.into_iter().map(|(k, v)| (k.to_string(), v)).collect())
}

fn object(members: Vec<(&str, Value)>) -> Value {
    Value::Object(members.into_iter().map(|(name, value)| (name.to_string(), value)).collect())
}

#[test]
fn a_document_is_read_level_by_level() {
    let scalar = Value::from(7);
    assert_eq!(tree_of(&scalar, 0), None);
    assert_eq!(tree_of(&scalar, 1), Some(Tree::Int(7)));

    let nested = Value::Array(vec![Value::Bool(true), Value::Array(vec![Value::Null])]);
    assert_eq!(tree_of(&nested, 1), None);
    assert_eq!(tree_of(&nested, 2), None);
    assert_eq!(
        tree_of(&nested, 3),
        Some(Tree::List(vec![Tree::Bool(true), Tree::List(vec![Tree::Null])]))
    );
    assert_eq!(tree_of(&nested, DEPTH), tree_of(&nested, 3));
    assert_eq!(tree_of(&Value::Array(vec![]), 1), Some(Tree::List(vec![])));
    assert_eq!(tree_of(&object(vec![]), 1), Some(record(vec![])));
}

#[test]
fn an_object_is_read_as_a_record_of_its_members() {
    let document = object(vec![
        ("b", Value::String("text".to_string())),
        ("a", object(vec![("inner", Value::from(-1))])),
    ]);
    assert_eq!(
        tree_of(&document, DEPTH),
        Some(record(vec![
            ("a", record(vec![("inner", Tree::Int(-1))])),
            ("b", Tree::from_text("text")),
        ]))
    );
    assert_eq!(tree_of(&document, 2), None);
}

#[test]
fn a_number_that_is_no_i64_holds_no_tree() {
    assert_eq!(tree_of(&Value::from(i64::MAX), 1), Some(Tree::Int(i64::MAX)));
    assert_eq!(tree_of(&Value::from(u64::MAX), 1), None);
    assert_eq!(tree_of(&Value::Number(Number::from_f64(0.5).unwrap()), 1), None);
    let hidden = Value::Array(vec![Value::from(1), object(vec![("x", Value::from(u64::MAX))])]);
    assert_eq!(tree_of(&hidden, DEPTH), None);
}

#[test]
fn a_tree_is_written_as_the_document_of_its_kind() {
    assert_eq!(document_of(&Tree::Null), Value::Null);
    assert_eq!(document_of(&Tree::Bool(false)), Value::Bool(false));
    assert_eq!(document_of(&Tree::Int(i64::MIN)), Value::from(i64::MIN));
    assert_eq!(document_of(&Tree::from_text("t")), Value::String("t".to_string()));
    assert_eq!(
        document_of(&Tree::List(vec![Tree::Int(1), Tree::List(vec![])])),
        Value::Array(vec![Value::from(1), Value::Array(vec![])])
    );
    assert_eq!(
        document_of(&record(vec![("z", Tree::Null), ("a", record(vec![("k", Tree::Int(2))]))])),
        object(vec![("a", object(vec![("k", Value::from(2))])), ("z", Value::Null)])
    );
    // Of two fields of one name the later one stays.
    assert_eq!(
        document_of(&record(vec![("a", Tree::Int(1)), ("a", Tree::Int(2))])),
        object(vec![("a", Value::from(2))])
    );
}

#[test]
fn a_tree_comes_back_from_its_document() {
    let tree = record(vec![
        ("a", Tree::List(vec![Tree::Int(1), Tree::Bool(true), Tree::Null])),
        ("b", record(vec![("c", Tree::from_text("d"))])),
    ]);
    assert_eq!(tree_of(&document_of(&tree), DEPTH), Some(tree));
}
