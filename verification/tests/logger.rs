use service_logging::{
    check_status, conclude, log_entry, silent_logger, BlackHoleLogger, ConsoleLogger,
    CoralogixConfig, CoralogixLogger, Delivery, LogEntry, LogQueue, Logger, Reply, SendError,
    Severity, CONTENT_TYPE, USER_AGENT,
};

fn entry(timestamp: u64, severity: Severity, text: &str) -> LogEntry {
    LogEntry {
        timestamp,
        severity,
        text: text.to_string(),
        category: None,
        class_name: None,
        method_name: None,
        thread_id: None,
    }
}

fn coralogix() -> CoralogixLogger {
    CoralogixLogger::init(CoralogixConfig {
        api_key: "key-123",
        application_name: "shop",
        endpoint: "https://api.example.com/api/v1/logs",
    })
}

#[test]
fn test_console_log() {
    let mut log_queue = LogQueue::default();
    log_queue.log(log_entry(
        Severity::Info,
        &vec![
            ("one".to_string(), "Thing One".to_string()),
            ("two".to_string(), "Thing Two".to_string()),
        ],
    ));
    let logger = ConsoleLogger::init();
    let delivery = logger.send("test_console_log", log_queue.take()).expect("send");
    match delivery {
        Delivery::Console(lines) => {
            assert_eq!(lines.len(), 1);
            for line in lines.iter() {
                println!("{}", line);
            }
            assert!(lines[0].ends_with(" test_console_log Info {\"one\":\"Thing One\",\"two\":\"Thing Two\"}"));
        }
        other => panic!("unexpected delivery: {:?}", other),
    }
}

#[test]
fn empty_batch_needs_nothing_done() {
    let loggers: Vec<Box<dyn Logger>> = vec![
        Box::new(BlackHoleLogger {}),
        Box::new(ConsoleLogger {}),
        ConsoleLogger::init(),
        silent_logger(),
        Box::new(coralogix()),
    ];
    for logger in loggers.iter() {
        assert!(matches!(logger.send("sub", vec![]), Ok(Delivery::Nothing)));
    }
    assert!(matches!(silent_logger().send("sub", vec![]), Ok(Delivery::Nothing)));
}

#[test]
fn silent_logger_drops_entries() {
    let logger = silent_logger();
    let sent = logger.send("sub", vec![entry(1, Severity::Info, "a"), entry(2, Severity::Info, "b")]);
    assert!(matches!(sent, Ok(Delivery::Nothing)));
}

#[test]
fn console_logger_asks_for_one_line_per_entry() {
    let logger = ConsoleLogger::default();
    let sent = logger.send(
        "jobs",
        vec![entry(1700000000123, Severity::Info, "started"), entry(1700000000456, Severity::Error, "failed: disk")],
    );
    match sent {
        Ok(Delivery::Console(lines)) => assert_eq!(
            lines,
            vec![
                "1700000000123 jobs Info started".to_string(),
                "1700000000456 jobs Error failed: disk".to_string()
            ]
        ),
        other => panic!("unexpected: {:?}", other),
    }
}

#[test]
fn coralogix_logger_asks_for_one_post() {
    let logger = coralogix();
    let mut second = entry(2, Severity::Warning, "two");
    second.class_name = Some("Cart".to_string());
    let sent = logger.send("checkout", vec![entry(1, Severity::Info, "one"), second]);
    match sent {
        Ok(Delivery::Post(request)) => {
            assert_eq!(request.endpoint, "https://api.example.com/api/v1/logs");
            assert_eq!(
                request.body,
                "{\"privateKey\":\"key-123\",\"applicationName\":\"shop\",\"subsystemName\":\"checkout\",\"logEntries\":[{\"timestamp\":1,\"severity\":3,\"text\":\"one\"},{\"timestamp\":2,\"severity\":4,\"text\":\"two\",\"className\":\"Cart\"}]}"
            );
        }
        other => panic!("unexpected: {:?}", other),
    }
}

#[test]
fn request_headers() {
    assert_eq!(CONTENT_TYPE, "application/json");
    assert_eq!(USER_AGENT, "service_logging/0.4.8");
}

#[test]
fn success_is_status_200_to_299() {
    for status in [200u16, 201, 204, 250, 299] {
        assert!(check_status(status, None).is_ok());
        assert!(check_status(status, Some("ignored".to_string())).is_ok());
        assert!(conclude(Reply::Answered { status, body: Some("ok".to_string()) }).is_ok());
    }
    for status in [0u16, 100, 199, 300, 301, 404, 500, 65535] {
        assert!(check_status(status, None).is_err());
        assert!(conclude(Reply::Answered { status, body: None }).is_err());
    }
}

#[test]
fn backend_error_holds_status_and_body() {
    let result = conclude(Reply::Answered { status: 500, body: Some("quota exceeded".to_string()) });
    match result {
        Err(e) => {
            match &e {
                SendError::Backend { status, body } => {
                    assert_eq!(*status, 500);
                    assert_eq!(body, "quota exceeded");
                }
                other => panic!("unexpected: {:?}", other),
            }
            let message = e.message();
            assert!(message.contains("500"));
            assert!(message.contains("quota exceeded"));
            assert_eq!(message, "Logging Error: status:500 quota exceeded");
        }
        Ok(()) => panic!("status 500 passed for success"),
    }
}

#[test]
fn unread_body_counts_as_empty() {
    match check_status(404, None) {
        Err(e) => {
            assert!(matches!(&e, SendError::Backend { status: 404, body } if body.is_empty()));
            assert_eq!(e.message(), "Logging Error: status:404 ");
        }
        Ok(()) => panic!("status 404 passed for success"),
    }
}

#[test]
fn unanswered_request_is_a_transport_error() {
    match conclude(Reply::Failed("connection refused".to_string())) {
        Err(e) => {
            assert!(matches!(&e, SendError::Transport(cause) if cause == "connection refused"));
            assert_eq!(e.message(), "connection refused");
        }
        Ok(()) => panic!("a failed request passed for success"),
    }
}
