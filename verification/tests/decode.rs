//! Term and record decoding, driven by hand-built JSON values.

use jora::error::ApiError;
use jora::jira::decode_filter;
use jora::jira::decode_issue;
use jora::json::JsonValue;
use jora::pocket::decode_item;
use jora::sparql::RdfTerm;
use jora::sparql::decode_term;

fn text(s: &str) -> JsonValue {
    JsonValue::Text(String::from(s))
}

fn obj(entries: Vec<(&str, JsonValue)>) -> JsonValue {
    JsonValue::Obj(entries.into_iter().map(|(k, v)| (String::from(k), v)).collect())
}

#[test]
fn uri_round_trips_value() {
    let v = obj(vec![("type", text("uri")), ("value", text("http://example/a"))]);
    let t = decode_term(&v).unwrap();
    assert_eq!(RdfTerm::Iri { value: String::from("http://example/a") }, t);
}

#[test]
fn bnode_round_trips_value() {
    let v = obj(vec![("type", text("bnode")), ("value", text("b0"))]);
    let t = decode_term(&v).unwrap();
    assert_eq!(RdfTerm::Bnode { value: String::from("b0") }, t);
}

#[test]
fn literal_requires_datatype() {
    let with = obj(vec![
        ("type", text("literal")),
        ("value", text("42")),
        ("datatype", text("http://www.w3.org/2001/XMLSchema#integer")),
    ]);
    let t = decode_term(&with).unwrap();
    assert_eq!(
        RdfTerm::Literal {
            value: String::from("42"),
            datatype: String::from("http://www.w3.org/2001/XMLSchema#integer"),
        },
        t
    );
    let without = obj(vec![("type", text("literal")), ("value", text("42"))]);
    match decode_term(&without) {
        Err(ApiError::MalformedTerm { what }) => assert_eq!("datatype", what),
        other => panic!("expected MalformedTerm, got {:?}", other),
    }
}

#[test]
fn unknown_discriminant_fails() {
    let v = obj(vec![("type", text("xyz")), ("value", text("a"))]);
    match decode_term(&v) {
        Err(ApiError::MalformedTerm { what }) => assert_eq!("xyz", what),
        other => panic!("expected MalformedTerm, got {:?}", other),
    }
}

#[test]
fn missing_discriminant_fails() {
    let v = obj(vec![("value", text("a"))]);
    match decode_term(&v) {
        Err(ApiError::MalformedTerm { what }) => assert_eq!("type", what),
        other => panic!("expected MalformedTerm, got {:?}", other),
    }
}

#[test]
fn iri_never_equals_bnode_with_same_value() {
    let iri = RdfTerm::Iri { value: String::from("x") };
    let bnode = RdfTerm::Bnode { value: String::from("x") };
    assert!(iri != bnode);
}

#[test]
fn filter_decodes_and_reports_missing_fields() {
    let v = obj(vec![
        ("id", text("10300")),
        ("self", text("https://localhost/jira/rest/api/2/filter/10300")),
        ("name", text("Overdue")),
        ("jql", text("due <= now()")),
    ]);
    let f = decode_filter(&v).unwrap();
    assert_eq!("10300", f.id);
    assert_eq!("due <= now()", f.query);
    let missing = obj(vec![
        ("id", text("10300")),
        ("self", text("u")),
        ("name", text("Overdue")),
    ]);
    match decode_filter(&missing) {
        Err(ApiError::MalformedIssue { field }) => assert_eq!("jql", field),
        other => panic!("expected MalformedIssue, got {:?}", other),
    }
}

#[test]
fn issue_requires_created_but_not_duedate() {
    let fields = obj(vec![
        ("summary", text("fix the build")),
        ("status", obj(vec![("id", text("3")), ("name", text("In Progress"))])),
        ("created", text("2019-01-02T03:04:05+00:00")),
    ]);
    let v = obj(vec![
        ("id", text("10001")),
        ("self", text("https://localhost/jira/rest/api/2/issue/10001")),
        ("key", text("BS-1")),
        ("fields", fields),
    ]);
    let issue = decode_issue(&v).unwrap();
    assert_eq!("BS-1", issue.key);
    assert_eq!("In Progress", issue.fields.status.name);
    assert_eq!(2019, issue.fields.created.year);
    assert_eq!(1, issue.fields.created.month);
    assert_eq!(2, issue.fields.created.day);
    assert_eq!(3, issue.fields.created.hour);
    assert_eq!(4, issue.fields.created.minute);
    assert_eq!(5, issue.fields.created.second);
    assert_eq!(0, issue.fields.created.tz_offset_seconds);
    assert!(issue.fields.due_date.is_none());

    let fields_without_created = obj(vec![
        ("summary", text("s")),
        ("status", obj(vec![("id", text("3")), ("name", text("n"))])),
    ]);
    let v2 = obj(vec![
        ("id", text("1")),
        ("self", text("u")),
        ("key", text("K-1")),
        ("fields", fields_without_created),
    ]);
    match decode_issue(&v2) {
        Err(ApiError::MalformedIssue { field }) => assert_eq!("created", field),
        other => panic!("expected MalformedIssue, got {:?}", other),
    }
}

#[test]
fn issue_duedate_parses_and_offset_is_kept() {
    let fields = obj(vec![
        ("summary", text("s")),
        ("status", obj(vec![("id", text("1")), ("name", text("Open"))])),
        ("created", text("2018-09-28T10:05:42-05:00")),
        ("duedate", text("2019-03-01")),
    ]);
    let v = obj(vec![
        ("id", text("1")),
        ("self", text("u")),
        ("key", text("K-2")),
        ("fields", fields),
    ]);
    let issue = decode_issue(&v).unwrap();
    assert_eq!(-5 * 3600, issue.fields.created.tz_offset_seconds);
    let due = issue.fields.due_date.unwrap();
    assert_eq!(2019, due.year);
    assert_eq!(3, due.month);
    assert_eq!(1, due.day);
}

#[test]
fn issue_null_duedate_is_absent_and_bad_duedate_fails() {
    let fields_null = obj(vec![
        ("summary", text("s")),
        ("status", obj(vec![("id", text("1")), ("name", text("Open"))])),
        ("created", text("2019-01-01T00:00:00+00:00")),
        ("duedate", JsonValue::Null),
    ]);
    let v = obj(vec![
        ("id", text("1")),
        ("self", text("u")),
        ("key", text("K-3")),
        ("fields", fields_null),
    ]);
    assert!(decode_issue(&v).unwrap().fields.due_date.is_none());

    let fields_bad = obj(vec![
        ("summary", text("s")),
        ("status", obj(vec![("id", text("1")), ("name", text("Open"))])),
        ("created", text("2019-01-01T00:00:00+00:00")),
        ("duedate", text("not a date")),
    ]);
    let v2 = obj(vec![
        ("id", text("1")),
        ("self", text("u")),
        ("key", text("K-4")),
        ("fields", fields_bad),
    ]);
    match decode_issue(&v2) {
        Err(ApiError::MalformedIssue { field }) => assert_eq!("duedate", field),
        other => panic!("expected MalformedIssue, got {:?}", other),
    }
}

#[test]
fn saved_item_decodes_and_reports_missing_field() {
    let item = obj(vec![
        ("item_id", text("229279689")),
        ("resolved_id", text("229279689")),
        ("given_url", text("http://example/article")),
        ("given_title", text("An article")),
        ("time_added", text("1418886531")),
        ("time_updated", text("1418886531")),
        ("resolved_url", text("http://example/article")),
        ("resolved_title", text("An article")),
        ("excerpt", text("A short excerpt.")),
    ]);
    let s = decode_item(&item).unwrap();
    assert_eq!("229279689", s.item_id);
    assert_eq!("A short excerpt.", s.excerpt);

    let missing = obj(vec![("item_id", text("1"))]);
    match decode_item(&missing) {
        Err(ApiError::MalformedItem { field }) => assert_eq!("resolved_id", field),
        other => panic!("expected MalformedItem, got {:?}", other),
    }
}
