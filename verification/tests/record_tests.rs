use notesponge::record::Record;
use notesponge::value::Value;

fn columns(record: &Record) -> Vec<(String, Value)> {
    let mut all = Vec::new();
    let mut index = 0;
    while let Some((name, value)) = record.get_index(index) {
        all.push((name.clone(), value.clone()));
        index += 1;
    }
    all
}

#[test]
fn new_record_is_empty() {
    let record = Record::new();
    assert_eq!(record.len(), 0);
    assert!(record.get("id").is_none());
    assert!(record.get_index(0).is_none());
    assert_eq!(record.integer("id"), None);
    assert_eq!(record.text("id"), None);
}

#[test]
fn columns_keep_insertion_order() {
    let mut record = Record::new();
    record.insert("zeta".to_string(), Value::Integer(1));
    record.insert("alpha".to_string(), Value::Text("a".to_string()));
    record.insert("mid".to_string(), Value::Null);
    assert_eq!(record.len(), 3);
    assert_eq!(
        columns(&record),
        vec![
            ("zeta".to_string(), Value::Integer(1)),
            ("alpha".to_string(), Value::Text("a".to_string())),
            ("mid".to_string(), Value::Null),
        ]
    );
}

#[test]
fn later_value_overwrites_earlier_and_keeps_its_place() {
    let mut record = Record::new();
    record.insert("a".to_string(), Value::Integer(1));
    record.insert("b".to_string(), Value::Integer(2));
    record.insert("a".to_string(), Value::Text("new".to_string()));
    assert_eq!(record.len(), 2);
    assert_eq!(record.get("a"), Some(&Value::Text("new".to_string())));
    assert_eq!(record.get("b"), Some(&Value::Integer(2)));
    assert_eq!(
        columns(&record),
        vec![
            ("a".to_string(), Value::Text("new".to_string())),
            ("b".to_string(), Value::Integer(2)),
        ]
    );
}

#[test]
fn typed_lookups_are_absent_on_other_types() {
    let mut record = Record::new();
    record.insert("id".to_string(), Value::Integer(12));
    record.insert("title".to_string(), Value::Text("T".to_string()));
    record.insert("gone".to_string(), Value::Null);
    assert_eq!(record.integer("id"), Some(12));
    assert_eq!(record.text("title"), Some("T"));
    assert_eq!(record.integer("title"), None);
    assert_eq!(record.text("id"), None);
    assert_eq!(record.text("gone"), None);
    assert_eq!(record.integer("absent"), None);
    assert_eq!(record.get_index(3), None);
    assert_eq!(
        record.get_index(1),
        Some((&"title".to_string(), &Value::Text("T".to_string())))
    );
}

#[test]
fn names_are_compared_exactly() {
    let mut record = Record::new();
    record.insert("Id".to_string(), Value::Integer(1));
    assert!(record.get("id").is_none());
    assert!(record.get("Id ").is_none());
    assert_eq!(record.get("Id"), Some(&Value::Integer(1)));
    record.insert("".to_string(), Value::Integer(2));
    assert_eq!(record.get(""), Some(&Value::Integer(2)));
}
