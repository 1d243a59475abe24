use pomodoro::error::Error;
use pomodoro::extract::{take, take_val};
use pomodoro::intent::{Intent, IntentBmc, IntentForCreate, IntentForUpdate};
use pomodoro::store::Store;
use pomodoro::value::{Object, Value};

fn text(s: &str) -> Value {
    Value::Strand(s.to_string())
}

fn field(obj: &Object, k: &str) -> Option<Value> {
    let mut c = obj.copy();
    c.remove(k)
}

fn rows_of(records: Vec<Object>) -> Result<Value, Error> {
    Ok(Value::Array(records.into_iter().map(Value::Object).collect()))
}

fn stored_intent(id: &str, label: &str, pinned: bool, tags: &[&str]) -> Object {
    let mut o = Object::new();
    o.insert("id".to_string(), Value::Thing(id.to_string()));
    o.insert("label".to_string(), text(label));
    o.insert("pinned".to_string(), Value::Bool(pinned));
    o.insert("tags".to_string(), Value::Array(tags.iter().map(|t| text(t)).collect()));
    o.insert("created_at".to_string(), text("1700000000000"));
    o
}

/// What the datastore's merge does to a record.
fn merge(record: &Object, patch: &Object) -> Object {
    let mut out = record.copy();
    for (k, v) in patch.entries.iter() {
        out.insert(k.clone(), v.copy());
    }
    out
}

#[test]
fn wrong_typed_field_is_value_not_of_type() {
    let mut o = Object::new();
    o.insert("done".to_string(), text("yes"));
    let r = take_val::<bool>(&mut o, "done");
    assert!(matches!(r, Err(Error::XValueNotOfType("bool"))));
    assert_eq!(o.remove("done"), None);
}

#[test]
fn wrong_typed_optional_field_is_value_not_of_type() {
    let mut o = Object::new();
    o.insert("archived_at".to_string(), Value::Bool(true));
    let r = take::<String>(&mut o, "archived_at");
    assert!(matches!(r, Err(Error::XValueNotOfType("String"))));
}

#[test]
fn absent_required_field_is_property_not_found() {
    let mut o = Object::new();
    o.insert("label".to_string(), text("a"));
    match take_val::<String>(&mut o, "title") {
        Err(Error::XPropertyNotFound(k)) => assert_eq!(k, "title"),
        other => panic!("unexpected {:?}", other),
    }
    assert_eq!(o.remove("label"), Some(text("a")));
}

#[test]
fn absent_optional_field_is_none() {
    let mut o = Object::new();
    let r = take::<String>(&mut o, "archived_at");
    assert!(matches!(r, Ok(None)));
}

#[test]
fn present_field_is_taken_once() {
    let mut o = Object::new();
    o.insert("label".to_string(), text("a"));
    let first = take_val::<String>(&mut o, "label");
    assert!(matches!(first, Ok(ref s) if s == "a"));
    let second = take_val::<String>(&mut o, "label");
    assert!(matches!(second, Err(Error::XPropertyNotFound(_))));
}

#[test]
fn record_reference_reads_as_text() {
    let mut o = Object::new();
    o.insert("id".to_string(), Value::Thing("intent:abc".to_string()));
    let r = take_val::<String>(&mut o, "id");
    assert!(matches!(r, Ok(ref s) if s == "intent:abc"));
}

#[test]
fn insert_replaces_and_remove_deletes() {
    let mut o = Object::new();
    o.insert("a".to_string(), Value::Number(1));
    o.insert("a".to_string(), Value::Number(2));
    assert_eq!(o.entries.len(), 1);
    assert_eq!(field(&o, "a"), Some(Value::Number(2)));
    assert_eq!(o.remove("a"), Some(Value::Number(2)));
    assert_eq!(o.remove("a"), None);
}

#[test]
fn create_content_fills_store_owned_fields() {
    let q = IntentBmc::create_query_at(IntentForCreate { label: "Write spec".to_string() }, 1700000000123);
    assert_eq!(field(&q.vars, "tb"), Some(text("intent")));
    let data = match field(&q.vars, "data") {
        Some(Value::Object(d)) => d,
        other => panic!("unexpected {:?}", other),
    };
    assert_eq!(field(&data, "label"), Some(text("Write spec")));
    assert_eq!(field(&data, "created_at"), Some(text("1700000000123")));
    assert_eq!(field(&data, "pinned"), Some(Value::Bool(false)));
    assert_eq!(field(&data, "tags"), Some(Value::Array(vec![])));
    assert_eq!(data.entries.len(), 4);
}

#[test]
fn archive_query_binds_record_and_time() {
    let q = IntentBmc::archive_query_at("intent:abc", -5).unwrap();
    assert_eq!(field(&q.vars, "th"), Some(Value::Thing("intent:abc".to_string())));
    assert_eq!(field(&q.vars, "timestamp"), Some(text("-5")));
    let q = IntentBmc::archive_query_at("intent:abc", 42).unwrap();
    assert_eq!(field(&q.vars, "timestamp"), Some(text("42")));
}

#[test]
fn malformed_record_id_is_a_datastore_error() {
    assert!(matches!(Store::get_query(""), Err(Error::Surreal(_))));
    assert!(matches!(Store::delete_query("not a record id"), Err(Error::Surreal(_))));
    assert!(matches!(IntentBmc::unarchive_query(""), Err(Error::Surreal(_))));
}

#[test]
fn update_payload_holds_only_set_fields() {
    let u = IntentForUpdate { label: None, pinned: Some(true), tags: None };
    let q = Store::merge_query("intent:abc", u).unwrap();
    let patch = match field(&q.vars, "data") {
        Some(Value::Object(d)) => d,
        other => panic!("unexpected {:?}", other),
    };
    assert_eq!(patch.entries.len(), 1);
    assert_eq!(field(&patch, "pinned"), Some(Value::Bool(true)));
}

#[test]
fn create_then_get_gives_the_same_intent() {
    let rec = stored_intent("intent:abc", "Write spec", false, &[]);
    let created = IntentBmc::create(rows_of(vec![rec.copy()]));
    let got = IntentBmc::get("intent:abc", rows_of(vec![rec])).unwrap();
    assert_eq!(created.result.unwrap(), got);
}

#[test]
fn mutation_emits_one_event_with_stored_document() {
    let rec = stored_intent("intent:abc", "a", true, &["x"]);
    let m = IntentBmc::update("intent:abc", rows_of(vec![rec.copy()]));
    assert!(m.result.is_ok());
    let e = m.event.unwrap();
    assert_eq!(e.name, "intent_updated");
    assert_eq!(e.payload, Value::Object(rec));
}

#[test]
fn failed_mutation_emits_no_event() {
    let m = IntentBmc::create(Err(Error::StateNotAccessed));
    assert!(matches!(m.result, Err(Error::StateNotAccessed)));
    assert!(m.event.is_none());
    let m = IntentBmc::update("intent:abc", rows_of(vec![]));
    assert!(matches!(m.result, Err(Error::StoreFailToCreate(_))));
    assert!(m.event.is_none());
    let mut bad = stored_intent("intent:abc", "a", false, &[]);
    bad.insert("pinned".to_string(), text("no"));
    let m = IntentBmc::archive("intent:abc", rows_of(vec![bad]));
    assert!(matches!(m.result, Err(Error::XValueNotOfType("bool"))));
    assert!(m.event.is_none());
}

#[test]
fn get_of_missing_record_fails() {
    match IntentBmc::get("intent:gone", rows_of(vec![])) {
        Err(Error::StoreFailToCreate(cause)) => assert_eq!(cause, "nothing returned for intent:gone"),
        other => panic!("unexpected {:?}", other),
    }
}

#[test]
fn delete_of_missing_record_fails() {
    let m = IntentBmc::delete("intent:gone", rows_of(vec![]));
    assert!(matches!(m.result, Err(Error::StoreFailToCreate(_))));
    assert!(m.event.is_none());
}

#[test]
fn list_fails_whole_on_one_bad_row() {
    let good = stored_intent("intent:a", "a", false, &[]);
    let mut bad = stored_intent("intent:b", "b", false, &[]);
    bad.insert("tags".to_string(), Value::Array(vec![Value::Number(3)]));
    let r = IntentBmc::list(rows_of(vec![good.copy(), bad]));
    assert!(matches!(r, Err(Error::XValueNotOfType("String"))));
    let r = IntentBmc::list(Ok(Value::Array(vec![Value::Object(good), Value::Null])));
    assert!(matches!(r, Err(Error::XValueNotOfType("Object"))));
    let r = IntentBmc::list(Ok(Value::Null));
    assert!(matches!(r, Err(Error::XValueNotOfType("Vec<Value>"))));
}

#[test]
fn list_of_nothing_is_empty() {
    assert_eq!(IntentBmc::list(rows_of(vec![])).unwrap(), Vec::<Intent>::new());
}

#[test]
fn missing_label_is_property_not_found() {
    let mut rec = stored_intent("intent:a", "a", false, &[]);
    rec.remove("label");
    match Intent::try_from(rec) {
        Err(Error::XPropertyNotFound(k)) => assert_eq!(k, "label"),
        other => panic!("unexpected {:?}", other),
    }
}

#[test]
fn intent_scenario_create_list_update_delete() {
    // create
    let q = IntentBmc::create_query(IntentForCreate { label: "Write spec".to_string() });
    let mut rec = match field(&q.vars, "data") {
        Some(Value::Object(d)) => d,
        other => panic!("unexpected {:?}", other),
    };
    rec.insert("id".to_string(), Value::Thing("intent:k1".to_string()));
    let created = IntentBmc::create(rows_of(vec![rec.copy()]));
    let intent = created.result.unwrap();
    assert_eq!(intent.id, "intent:k1");
    assert_eq!(intent.label, "Write spec");
    assert!(!intent.created_at.is_empty());
    assert!(intent.created_at.chars().all(|c| c.is_ascii_digit()));
    assert!(!intent.pinned);
    assert!(intent.tags.is_empty());
    assert_eq!(intent.archived_at, None);
    assert_eq!(created.event.unwrap().name, "intent_created");

    // list
    let listed = IntentBmc::list(rows_of(vec![rec.copy()])).unwrap();
    assert_eq!(listed, vec![intent.clone()]);

    // update
    let u = IntentForUpdate { label: None, pinned: Some(true), tags: None };
    let q = Store::merge_query("intent:k1", u).unwrap();
    let patch = match field(&q.vars, "data") {
        Some(Value::Object(d)) => d,
        other => panic!("unexpected {:?}", other),
    };
    let rec = merge(&rec, &patch);
    let updated = IntentBmc::update("intent:k1", rows_of(vec![rec.copy()])).result.unwrap();
    let mut expected = intent.clone();
    expected.pinned = true;
    assert_eq!(updated, expected);

    // delete
    let deleted = IntentBmc::delete("intent:k1", rows_of(vec![rec]));
    assert_eq!(deleted.result.unwrap().id, "intent:k1");
    let e = deleted.event.unwrap();
    assert_eq!(e.name, "intent_deleted");

    // get after delete
    let got = IntentBmc::get("intent:k1", rows_of(vec![]));
    assert!(matches!(got, Err(Error::StoreFailToCreate(_))));
}

#[test]
fn unarchive_event_and_archived_field() {
    let mut rec = stored_intent("intent:a", "a", false, &["t1", "t2"]);
    rec.insert("archived_at".to_string(), text("99"));
    let m = IntentBmc::archive("intent:a", rows_of(vec![rec.copy()]));
    let i = m.result.unwrap();
    assert_eq!(i.archived_at, Some("99".to_string()));
    assert_eq!(i.tags, vec!["t1".to_string(), "t2".to_string()]);
    assert_eq!(m.event.unwrap().name, "intent_archived");
    rec.remove("archived_at");
    let m = IntentBmc::unarchive("intent:a", rows_of(vec![rec]));
    assert_eq!(m.result.unwrap().archived_at, None);
    assert_eq!(m.event.unwrap().name, "intent_unarchived");
}

#[test]
fn query_texts() {
    assert_eq!(IntentBmc::list_query().sql, "SELECT * FROM type::table($tb)");
    assert_eq!(
        IntentBmc::create_query_at(IntentForCreate { label: "a".to_string() }, 1).sql,
        "CREATE type::table($tb) CONTENT $data RETURN AFTER"
    );
    assert_eq!(Store::get_query("intent:a").unwrap().sql, "SELECT * FROM $th");
    assert_eq!(Store::delete_query("intent:a").unwrap().sql, "DELETE $th RETURN BEFORE");
    let u = IntentForUpdate { label: Some("b".to_string()), pinned: None, tags: None };
    assert_eq!(
        Store::merge_query("intent:a", u).unwrap().sql,
        "UPDATE $th MERGE $data WHERE id != NONE RETURN AFTER"
    );
    assert_eq!(
        IntentBmc::archive_query("intent:a").unwrap().sql,
        "UPDATE $th SET archived_at = $timestamp WHERE id != NONE RETURN AFTER"
    );
    assert_eq!(
        IntentBmc::unarchive_query("intent:a").unwrap().sql,
        "UPDATE $th SET archived_at = NONE WHERE id != NONE RETURN AFTER"
    );
}

#[test]
fn archive_of_missing_record_names_it() {
    for m in [
        IntentBmc::archive("intent:a", rows_of(vec![])),
        IntentBmc::unarchive("intent:a", rows_of(vec![])),
        IntentBmc::update("intent:a", rows_of(vec![])),
    ] {
        match m.result {
            Err(Error::StoreFailToCreate(cause)) => {
                assert_eq!(cause, "can't update intent:a, nothing returned.")
            }
            other => panic!("unexpected {:?}", other),
        }
        assert!(m.event.is_none());
    }
}

#[test]
fn delete_reports_the_deleted_reference() {
    let rec = stored_intent("intent:k9", "a", false, &[]);
    let m = IntentBmc::delete("intent:⟨k9⟩", rows_of(vec![rec]));
    assert_eq!(m.result.unwrap().id, "intent:k9");
    let mut expected = Object::new();
    expected.insert("id".to_string(), text("intent:k9"));
    assert_eq!(m.event.unwrap().payload, Value::Object(expected));
    let m = IntentBmc::delete("intent:a", rows_of(vec![]));
    match m.result {
        Err(Error::StoreFailToCreate(cause)) => assert_eq!(cause, "can't delete intent:a, nothing returned."),
        other => panic!("unexpected {:?}", other),
    }
}
