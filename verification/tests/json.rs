use unica_coder::json::{clone_json, Json, JsonMap};

#[test]
fn a_read_after_a_write_gives_the_written_value() {
    let mut map = JsonMap::new();
    map.insert("dryRun".to_string(), Json::Bool(true));
    map.insert("cwd".to_string(), Json::Str("/work".to_string()));
    map.insert("dryRun".to_string(), Json::Bool(false));
    assert_eq!(map.entries.len(), 2);
    assert_eq!(map.get("dryRun").and_then(|v| v.as_bool()), Some(false));
    assert_eq!(
        map.get("cwd").and_then(|v| v.as_str()).map(|s| s.as_str()),
        Some("/work")
    );
    assert!(map.get("missing").is_none());
    assert_eq!(map.position("cwd"), Some(1));
}

#[test]
fn accessors_see_only_their_own_kind() {
    assert_eq!(Json::Int(-3).as_i64(), Some(-3));
    assert_eq!(Json::UInt(7).as_i64(), Some(7));
    assert_eq!(Json::UInt(u64::MAX).as_i64(), None);
    assert_eq!(Json::Str("x".to_string()).as_bool(), None);
    assert!(Json::Null.as_object().is_none());
    assert_eq!(Json::Array(vec![Json::Null]).as_array().map(|a| a.len()), Some(1));
    assert_eq!(Json::text("t").as_str().map(|s| s.as_str()), Some("t"));
}

#[test]
fn a_deep_copy_keeps_every_entry() {
    let mut inner = JsonMap::new();
    inner.insert("pid".to_string(), Json::Int(42));
    let mut outer = JsonMap::new();
    outer.insert("wait".to_string(), Json::Object(inner));
    outer.insert("items".to_string(), Json::Array(vec![Json::Decimal("1.5".to_string())]));
    let copy = clone_json(&Json::Object(outer));
    let copy = copy.as_object().expect("object");
    let wait = copy.get("wait").and_then(|w| w.as_object()).expect("wait");
    assert_eq!(wait.get("pid").and_then(|p| p.as_i64()), Some(42));
    assert!(matches!(
        copy.get("items").and_then(|i| i.as_array()).map(|a| &a[0]),
        Some(Json::Decimal(d)) if d == "1.5"
    ));
}
