use wallabag_api::codec::{decode_deleted_entry, decode_entry, decode_entry_bytes, reconcile};
use wallabag_api::json::{Field, JsonValue};
use wallabag_api::types::{DecodeError, ID};

fn s(v: &str) -> JsonValue {
    JsonValue::Str(v.to_string())
}

fn kv(k: &str, v: JsonValue) -> (String, JsonValue) {
    (k.to_string(), v)
}

fn entry_fields(id: i64) -> Vec<(String, JsonValue)> {
    vec![
        kv("id", JsonValue::Int(id)),
        kv("content", s("hello")),
        kv("created_at", s("2018-06-03T21:05:54+00:00")),
        kv("is_archived", JsonValue::Int(0)),
        kv("is_public", JsonValue::Int(0)),
        kv("is_starred", JsonValue::Int(1)),
        kv("reading_time", JsonValue::Int(7)),
        kv("tags", JsonValue::Arr(vec![])),
        kv("updated_at", s("2018-06-03T22:06:54+00:00")),
        kv("user_email", s("user@example.com")),
        kv("user_id", JsonValue::Int(5)),
        kv("user_name", s("user")),
    ]
}

fn entry_json(id: i64) -> JsonValue {
    JsonValue::Obj(entry_fields(id))
}

fn entry_json_with(id: i64, key: &str, v: JsonValue) -> JsonValue {
    let mut fields: Vec<(String, JsonValue)> =
        entry_fields(id).into_iter().filter(|p| p.0 != key).collect();
    fields.push(kv(key, v));
    JsonValue::Obj(fields)
}

fn entry_json_without(id: i64, key: &str) -> JsonValue {
    let fields: Vec<(String, JsonValue)> =
        entry_fields(id).into_iter().filter(|p| p.0 != key).collect();
    JsonValue::Obj(fields)
}

#[test]
fn decodes_a_full_entry() {
    let e = decode_entry(entry_json(42)).unwrap();
    assert_eq!(e.id, ID(42));
    assert_eq!(e.content, Some("hello".to_string()));
    assert_eq!(e.title, None);
    assert_eq!(e.domain_name, None);
    assert!(!e.is_archived);
    assert!(!e.is_public);
    assert!(e.is_starred);
    assert_eq!(e.reading_time, 7);
    assert_eq!(e.tags, JsonValue::Arr(vec![]));
    assert_eq!(e.user_email, "user@example.com".to_string());
    assert_eq!(e.user_id, ID(5));
    assert_eq!(e.user_name, "user".to_string());
    let expected_created = chrono::DateTime::parse_from_rfc3339("2018-06-03T21:05:54+00:00")
        .unwrap()
        .timestamp();
    let expected_updated = chrono::DateTime::parse_from_rfc3339("2018-06-03T22:06:54+00:00")
        .unwrap()
        .timestamp();
    assert_eq!(e.created_at, expected_created);
    assert_eq!(e.updated_at, expected_updated);
    assert!(expected_created > 0);
}

#[test]
fn flags_decode_zero_to_false_and_one_to_true() {
    let e0 = decode_entry(entry_json_with(1, "is_archived", JsonValue::Int(0))).unwrap();
    assert!(!e0.is_archived);
    let e1 = decode_entry(entry_json_with(1, "is_archived", JsonValue::Int(1))).unwrap();
    assert!(e1.is_archived);
    let pub_one = decode_entry(entry_json_with(1, "is_public", JsonValue::Int(1))).unwrap();
    assert!(pub_one.is_public);
    let s0 = decode_entry(entry_json_with(1, "is_starred", JsonValue::Int(0))).unwrap();
    assert!(!s0.is_starred);
}

#[test]
fn flag_of_two_is_rejected() {
    let r = decode_entry(entry_json_with(1, "is_archived", JsonValue::Int(2)));
    assert_eq!(
        r,
        Err(DecodeError::InvalidBoolean(Field::IsArchived, JsonValue::Int(2)))
    );
}

#[test]
fn flag_of_text_is_rejected() {
    let r = decode_entry(entry_json_with(1, "is_archived", s("x")));
    assert_eq!(
        r,
        Err(DecodeError::InvalidBoolean(Field::IsArchived, s("x")))
    );
}

#[test]
fn missing_flag_is_a_missing_field() {
    let r = decode_entry(entry_json_without(1, "is_public"));
    assert_eq!(r, Err(DecodeError::MissingOrInvalidField(Field::IsPublic)));
}

#[test]
fn missing_id_is_rejected() {
    let r = decode_entry(entry_json_without(1, "id"));
    assert_eq!(r, Err(DecodeError::MissingOrInvalidField(Field::Id)));
}

#[test]
fn missing_timestamp_is_rejected() {
    let r = decode_entry(entry_json_without(1, "created_at"));
    assert_eq!(r, Err(DecodeError::MissingOrInvalidField(Field::CreatedAt)));
}

#[test]
fn unparseable_timestamp_is_rejected() {
    let r = decode_entry(entry_json_with(1, "updated_at", s("yesterday")));
    assert_eq!(r, Err(DecodeError::MissingOrInvalidField(Field::UpdatedAt)));
}

#[test]
fn null_optional_field_decodes_to_absent() {
    let e = decode_entry(entry_json_with(1, "content", JsonValue::Null)).unwrap();
    assert_eq!(e.content, None);
}

#[test]
fn non_object_is_malformed() {
    assert_eq!(decode_entry(JsonValue::Int(3)), Err(DecodeError::Malformed));
}

#[test]
fn decodes_entry_from_bytes() {
    let text = r#"{
        "id": 9,
        "title": "a page",
        "content": null,
        "created_at": "2018-06-03T21:05:54+00:00",
        "updated_at": "2018-06-03T22:06:54+00:00",
        "is_archived": 1,
        "is_public": 0,
        "is_starred": 0,
        "reading_time": 3,
        "tags": [{"id": 1, "label": "news", "slug": "news"}],
        "user_email": "user@example.com",
        "user_id": 5,
        "user_name": "user"
    }"#;
    let e = decode_entry_bytes(text.as_bytes()).unwrap();
    assert_eq!(e.id, ID(9));
    assert_eq!(e.title, Some("a page".to_string()));
    assert_eq!(e.content, None);
    assert!(e.is_archived);
    assert_eq!(e.reading_time, 3);
    match &e.tags {
        JsonValue::Arr(tags) => assert_eq!(tags.len(), 1),
        other => panic!("tags kept as {:?}", other),
    }
}

#[test]
fn garbage_bytes_are_malformed() {
    assert_eq!(
        decode_entry_bytes(b"this is not json"),
        Err(DecodeError::Malformed)
    );
}

#[test]
fn reconcile_injects_the_identifier_and_keeps_every_field() {
    let deleted_doc = entry_json_without(0, "id");
    let d = decode_deleted_entry(deleted_doc).unwrap();
    let e = reconcile(d, ID(42));
    assert_eq!(e.id, ID(42));
    let full = decode_entry(entry_json(42)).unwrap();
    assert_eq!(e, full);
}

#[test]
fn deleted_entry_decoding_ignores_an_identifier() {
    let with_id = decode_deleted_entry(entry_json(7)).unwrap();
    let without_id = decode_deleted_entry(entry_json_without(7, "id")).unwrap();
    assert_eq!(with_id, without_id);
}

#[test]
fn an_entry_coerces_to_its_own_identifier() {
    let e = decode_entry(entry_json(42)).unwrap();
    assert_eq!(ID::from(e), ID(42));
    let other = decode_entry(entry_json_with(42, "title", s("anything"))).unwrap();
    assert_eq!(ID::from(other), ID(42));
}

#[test]
fn negative_identifier_is_rejected() {
    let r = decode_entry(entry_json_with(1, "id", JsonValue::Int(-4)));
    assert_eq!(r, Err(DecodeError::MissingOrInvalidField(Field::Id)));
}

#[test]
fn fractional_wire_number_is_rejected() {
    let text = r#"{
        "id": 9,
        "created_at": "2018-06-03T21:05:54+00:00",
        "updated_at": "2018-06-03T22:06:54+00:00",
        "is_archived": 0,
        "is_public": 0,
        "is_starred": 0,
        "reading_time": 1.5,
        "tags": [],
        "user_email": "user@example.com",
        "user_id": 5,
        "user_name": "user"
    }"#;
    assert_eq!(
        decode_entry_bytes(text.as_bytes()),
        Err(DecodeError::MissingOrInvalidField(Field::ReadingTime))
    );
}

#[test]
fn decoding_the_same_document_twice_gives_equal_entries() {
    let e1 = decode_entry(entry_json(13)).unwrap();
    let e2 = decode_entry(entry_json(13)).unwrap();
    assert_eq!(e1, e2);
}

#[test]
fn duplicate_keys_read_the_first_occurrence() {
    let mut fields = entry_fields(1);
    fields.insert(0, kv("title", s("first")));
    fields.push(kv("title", s("second")));
    let e = decode_entry(JsonValue::Obj(fields)).unwrap();
    assert_eq!(e.title, Some("first".to_string()));
}
