use azvault::export::{check_export_size, export_rows, MAX_EXPORT_INPUT_BYTES};
use azvault::json::JsonValue;

fn obj(fields: Vec<(&str, JsonValue)>) -> JsonValue {
    JsonValue::Obj(fields.into_iter().map(|(k, v)| (k.to_string(), v)).collect())
}

fn s(text: &str) -> JsonValue {
    JsonValue::Str(text.to_string())
}

#[test]
fn exports_items_as_json() {
    let items = vec![obj(vec![("name", s("secret-1"))]), obj(vec![("name", s("secret-2"))])];
    let out = export_rows(items, "json").expect("json export should succeed");
    assert!(out.contains("secret-1"));
    assert!(out.contains("secret-2"));
    let parsed: serde_json::Value = serde_json::from_str(&out).expect("valid JSON");
    assert_eq!(parsed.as_array().unwrap().len(), 2);
}

#[test]
fn exports_items_as_csv() {
    let items = vec![
        obj(vec![("name", s("n1")), ("enabled", JsonValue::Bool(true))]),
        obj(vec![("name", s("n2")), ("enabled", JsonValue::Bool(false))]),
    ];
    let out = export_rows(items, "csv").expect("csv export should succeed");
    assert!(out.lines().count() >= 2, "should have header + data rows");
    assert!(out.contains("\"n1\""));
    assert!(out.contains("\"n2\""));
}

#[test]
fn exports_csv_escapes_quotes_and_nulls() {
    let items = vec![obj(vec![
        ("name", s("db\"prod")),
        ("enabled", JsonValue::Null),
        ("count", JsonValue::Int(3)),
    ])];
    let out = export_rows(items, "csv").expect("csv export should succeed");
    assert!(out.contains("\"db\"\"prod\""), "quoted values should be escaped");
    assert!(out.contains(",,"), "null values should be exported as empty CSV cells");
}

#[test]
fn exports_empty_csv() {
    let out = export_rows(vec![], "csv").expect("empty csv should succeed");
    assert_eq!(out, "");
}

#[test]
fn exports_csv_exact_text() {
    let items = vec![
        obj(vec![("name", s("a")), ("count", JsonValue::Int(1))]),
        obj(vec![("name", s("b")), ("count", JsonValue::Int(2))]),
    ];
    let out = export_rows(items, "csv").expect("csv export should succeed");
    assert_eq!(out, "name,count\n\"a\",1\n\"b\",2\n");
}

#[test]
fn csv_skips_non_object_rows_and_missing_fields() {
    let items = vec![
        obj(vec![("name", s("a")), ("extra", s("x"))]),
        JsonValue::Int(7),
        obj(vec![("other", s("y"))]),
    ];
    let out = export_rows(items, "csv").expect("csv export should succeed");
    assert_eq!(out, "name,extra\n\"a\",\"x\"\n,\n");
}

#[test]
fn rejects_oversized_export_payload() {
    let err = check_export_size(MAX_EXPORT_INPUT_BYTES + 10).expect_err(
        "should reject oversized payload",
    );
    assert!(err.contains("too large"));
    assert!(check_export_size(MAX_EXPORT_INPUT_BYTES).is_ok());
}

#[test]
fn rejects_unsupported_export_format() {
    let items = vec![obj(vec![("name", s("test"))])];
    let err = export_rows(items, "xml").expect_err("should reject xml format");
    assert!(err.contains("Unsupported"));
    assert!(err.contains("xml"));
}

#[test]
fn rejects_too_many_rows() {
    let items: Vec<JsonValue> = (0..20_001).map(|_| obj(vec![("n", JsonValue::Null)])).collect();
    let err = export_rows(items, "json").expect_err("should reject too many rows");
    assert_eq!(err, "Too many items to export (max 20000).");
}
