use service_logging::{build_entry, classify, log_entry, EncodingError, Fields, LogQueue, Severity};

fn pairs(items: &[(&str, &str)]) -> Vec<(String, String)> {
    items.iter().map(|(k, v)| (k.to_string(), v.to_string())).collect()
}

#[test]
fn other_keys_become_sorted_json_text() {
    let status = 200;
    let input = vec![
        ("method".to_string(), "GET".to_string()),
        ("url".to_string(), "https://example.com".to_string()),
        ("status".to_string(), status.to_string()),
    ];
    let e = build_entry(5, Severity::Info, &input);
    assert_eq!(e.text, "{\"method\":\"GET\",\"status\":\"200\",\"url\":\"https://example.com\"}");
    assert_eq!(e.timestamp, 5);
    assert_eq!(e.severity, Severity::Info);
    assert!(e.category.is_none() && e.class_name.is_none());
    assert!(e.method_name.is_none() && e.thread_id.is_none());
}

#[test]
fn supplied_text_drops_other_keys() {
    let e = build_entry(1, Severity::Info, &pairs(&[("text", "custom"), ("foo", "bar")]));
    assert_eq!(e.text, "custom");
    assert!(!e.text.contains("foo"));
    assert!(!e.text.contains("bar"));
    assert!(e.category.is_none() && e.class_name.is_none());
    assert!(e.method_name.is_none() && e.thread_id.is_none());
    let e = build_entry(1, Severity::Info, &pairs(&[("foo", "bar"), ("text", "custom")]));
    assert_eq!(e.text, "custom");
}

#[test]
fn reserved_keys_fill_their_fields() {
    let e = build_entry(
        9,
        Severity::Warning,
        &pairs(&[
            ("category", "net"),
            ("class_name", "Client"),
            ("method_name", "connect"),
            ("thread_id", "t-1"),
            ("host", "example.com"),
        ]),
    );
    assert_eq!(e.category.as_deref(), Some("net"));
    assert_eq!(e.class_name.as_deref(), Some("Client"));
    assert_eq!(e.method_name.as_deref(), Some("connect"));
    assert_eq!(e.thread_id.as_deref(), Some("t-1"));
    assert_eq!(e.text, "{\"host\":\"example.com\"}");
    assert_eq!(e.severity, Severity::Warning);
}

#[test]
fn no_pairs_give_empty_object() {
    let e = build_entry(3, Severity::Debug, &pairs(&[]));
    assert_eq!(e.text, "{}");
    let e = build_entry(3, Severity::Debug, &pairs(&[("category", "only")]));
    assert_eq!(e.text, "{}");
    assert_eq!(e.category.as_deref(), Some("only"));
}

#[test]
fn last_value_of_a_key_stays() {
    let e = build_entry(
        3,
        Severity::Debug,
        &pairs(&[("b", "1"), ("a", "2"), ("b", "3"), ("category", "x"), ("category", "y")]),
    );
    assert_eq!(e.text, "{\"a\":\"2\",\"b\":\"3\"}");
    assert_eq!(e.category.as_deref(), Some("y"));
    let e = build_entry(3, Severity::Debug, &pairs(&[("text", "first"), ("text", "second")]));
    assert_eq!(e.text, "second");
}

#[test]
fn empty_text_counts_as_supplied() {
    let e = build_entry(3, Severity::Debug, &pairs(&[("text", ""), ("a", "1")]));
    assert_eq!(e.text, "");
}

#[test]
fn values_are_escaped_in_json_text() {
    let e = build_entry(3, Severity::Debug, &pairs(&[("msg", "say \"hi\"\n"), ("path", "a\\b")]));
    assert_eq!(e.text, "{\"msg\":\"say \\\"hi\\\"\\n\",\"path\":\"a\\\\b\"}");
}

#[test]
fn keys_are_sorted_by_bytes() {
    let e = build_entry(
        3,
        Severity::Debug,
        &pairs(&[("b", "1"), ("B", "2"), ("a", "3"), ("ab", "4"), ("é", "5"), ("_x", "6"), ("Zz", "7")]),
    );
    assert_eq!(
        e.text,
        "{\"B\":\"2\",\"Zz\":\"7\",\"_x\":\"6\",\"a\":\"3\",\"ab\":\"4\",\"b\":\"1\",\"é\":\"5\"}"
    );
}

#[test]
fn classify_keeps_fields_on_the_side() {
    let c = classify(11, Severity::Error, &pairs(&[("z", "26"), ("text", "t"), ("a", "1"), ("z", "0")]));
    assert!(c.has_text);
    assert_eq!(c.entry.text, "t");
    assert_eq!(c.entry.timestamp, 11);
    assert_eq!(c.entry.severity, Severity::Error);
    assert_eq!(c.fields.len(), 2);
    assert_eq!(c.fields.get(0), Some(("a", "1")));
    assert_eq!(c.fields.get(1), Some(("z", "0")));
    assert_eq!(c.fields.get(2), None);
    let c = classify(11, Severity::Error, &pairs(&[("category", "c")]));
    assert!(!c.has_text);
    assert_eq!(c.fields.len(), 0);
    assert_eq!(c.entry.text, "");
}

#[test]
fn settle_prefers_text_then_encoding_then_note() {
    let c = classify(1, Severity::Info, &pairs(&[("a", "1")]));
    let e = c.settle(Ok("{\"a\":\"1\"}".to_string()));
    assert_eq!(e.text, "{\"a\":\"1\"}");
    let c = classify(1, Severity::Info, &pairs(&[("a", "1"), ("category", "c")]));
    let e = c.settle(Err(EncodingError { details: "key must be a string".to_string() }));
    assert_eq!(e.text, "error serializing message: key must be a string");
    assert_eq!(e.category.as_deref(), Some("c"));
    let c = classify(1, Severity::Info, &pairs(&[("text", "kept")]));
    let e = c.settle(Err(EncodingError { details: "ignored".to_string() }));
    assert_eq!(e.text, "kept");
    let c = classify(1, Severity::Info, &pairs(&[("text", "kept")]));
    let e = c.settle(Ok("{}".to_string()));
    assert_eq!(e.text, "kept");
}

#[test]
fn fields_insert_in_order_and_overwrite() {
    let mut f = Fields::new();
    assert_eq!(f.len(), 0);
    assert_eq!(f.to_json().unwrap(), "{}");
    f.insert("m".to_string(), "1".to_string());
    f.insert("a".to_string(), "2".to_string());
    f.insert("z".to_string(), "3".to_string());
    f.insert("n".to_string(), "4".to_string());
    assert_eq!(f.len(), 4);
    assert_eq!(f.get(0), Some(("a", "2")));
    assert_eq!(f.get(1), Some(("m", "1")));
    assert_eq!(f.get(2), Some(("n", "4")));
    assert_eq!(f.get(3), Some(("z", "3")));
    f.insert("m".to_string(), "5".to_string());
    f.insert("a".to_string(), "6".to_string());
    f.insert("z".to_string(), "7".to_string());
    assert_eq!(f.len(), 4);
    assert_eq!(f.to_json().unwrap(), "{\"a\":\"6\",\"m\":\"5\",\"n\":\"4\",\"z\":\"7\"}");
}

#[test]
fn fields_json_matches_a_sorted_map() {
    let mut f = Fields::new();
    let mut m = std::collections::BTreeMap::new();
    for (k, v) in [("url", "u"), ("", "empty"), ("Url", "U"), ("status", "200"), ("url", "again"), ("ü", "x")] {
        f.insert(k.to_string(), v.to_string());
        m.insert(k.to_string(), v.to_string());
    }
    assert_eq!(f.to_json().unwrap(), serde_json::to_string(&m).unwrap());
}

#[test]
fn log_entry_stamps_with_the_clock() {
    let before = service_logging::current_time_millis();
    let e = log_entry(Severity::Info, &pairs(&[("one", "Thing One"), ("two", "Thing Two")]));
    let after = service_logging::current_time_millis();
    assert!(before <= e.timestamp && e.timestamp <= after);
    assert_eq!(e.severity, Severity::Info);
    assert_eq!(e.text, "{\"one\":\"Thing One\",\"two\":\"Thing Two\"}");
    let mut q = LogQueue::new();
    q.log(e);
    assert_eq!(q.take().len(), 1);
}
