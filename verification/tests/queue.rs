use service_logging::{LogEntry, LogQueue, Severity};

fn entry(timestamp: u64, severity: Severity, text: &str) -> LogEntry {
    LogEntry {
        timestamp,
        severity,
        text: text.to_string(),
        category: None,
        class_name: None,
        method_name: None,
        thread_id: None,
    }
}

#[test]
fn new_queue_is_empty() {
    let mut q = LogQueue::new();
    assert!(q.is_empty());
    assert!(q.take().is_empty());
    assert!(LogQueue::default().is_empty());
    assert_eq!(LogQueue::new().to_string(), "");
}

#[test]
fn take_returns_entries_in_append_order() {
    let mut q = LogQueue::new();
    for i in 0..5u64 {
        q.log(entry(i, Severity::Info, &format!("entry {}", i)));
    }
    assert!(!q.is_empty());
    let taken = q.take();
    assert!(q.is_empty());
    assert_eq!(taken.len(), 5);
    for (i, e) in taken.iter().enumerate() {
        assert_eq!(e.timestamp, i as u64);
        assert_eq!(e.text, format!("entry {}", i));
    }
    assert!(q.take().is_empty());
}

#[test]
fn first_appended_comes_first() {
    let mut q = LogQueue::new();
    q.log(entry(2, Severity::Error, "A"));
    q.log(entry(1, Severity::Debug, "B"));
    let taken = q.take();
    assert_eq!(taken.len(), 2);
    assert_eq!(taken[0].text, "A");
    assert_eq!(taken[1].text, "B");
    assert!(q.is_empty());
}

#[test]
fn from_keeps_entries_and_takes_more() {
    let mut q = LogQueue::from(vec![entry(1, Severity::Info, "one"), entry(2, Severity::Info, "two")]);
    assert!(!q.is_empty());
    q.log(entry(3, Severity::Warning, "three"));
    let taken = q.take();
    let texts: Vec<&str> = taken.iter().map(|e| e.text.as_str()).collect();
    assert_eq!(texts, vec!["one", "two", "three"]);
}

#[test]
fn clear_discards_everything() {
    let mut q = LogQueue::new();
    q.log(entry(1, Severity::Info, "one"));
    q.log(entry(2, Severity::Info, "two"));
    q.clear();
    assert!(q.is_empty());
    assert!(q.take().is_empty());
    q.log(entry(3, Severity::Info, "three"));
    assert_eq!(q.take()[0].text, "three");
}

#[test]
fn queue_shows_one_line_per_entry() {
    let mut q = LogQueue::new();
    q.log(entry(1700000000123, Severity::Info, "started"));
    assert_eq!(q.to_string(), "1700000000123 Info started");
    q.log(entry(0, Severity::Critical, ""));
    q.log(entry(18446744073709551615, Severity::Debug, "last one"));
    assert_eq!(
        q.to_string(),
        "1700000000123 Info started\n0 Critical \n18446744073709551615 Debug last one"
    );
}

#[test]
fn entry_shows_time_severity_and_text() {
    let mut e = entry(42, Severity::Warning, "disk almost full");
    e.category = Some("storage".to_string());
    assert_eq!(e.to_string(), "42 Warning disk almost full");
    assert_eq!(e.console_line("worker"), "42 worker Warning disk almost full");
}

#[test]
fn blank_and_default_entries() {
    let e = LogEntry::blank(7, Severity::Error);
    assert_eq!(e.timestamp, 7);
    assert_eq!(e.severity, Severity::Error);
    assert_eq!(e.text, "");
    assert!(e.category.is_none() && e.class_name.is_none());
    assert!(e.method_name.is_none() && e.thread_id.is_none());
    let before = service_logging::current_time_millis();
    let d = LogEntry::default();
    let after = service_logging::current_time_millis();
    assert_eq!(d.severity, Severity::Debug);
    assert_eq!(d.text, "");
    assert!(d.category.is_none() && d.class_name.is_none());
    assert!(d.method_name.is_none() && d.thread_id.is_none());
    assert!(before <= d.timestamp && d.timestamp <= after);
    assert!(d.timestamp > 1_600_000_000_000);
}
