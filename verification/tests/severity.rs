use service_logging::{ParseError, Severity};
use std::str::FromStr;

#[test]
fn parses_every_spelling() {
    let cases = [
        ("debug", Severity::Debug),
        ("Debug", Severity::Debug),
        ("DEBUG", Severity::Debug),
        ("verbose", Severity::Verbose),
        ("Verbose", Severity::Verbose),
        ("VERBOSE", Severity::Verbose),
        ("info", Severity::Info),
        ("Info", Severity::Info),
        ("INFO", Severity::Info),
        ("warning", Severity::Warning),
        ("Warning", Severity::Warning),
        ("WARNING", Severity::Warning),
        ("error", Severity::Error),
        ("Error", Severity::Error),
        ("ERROR", Severity::Error),
        ("critical", Severity::Critical),
        ("Critical", Severity::Critical),
        ("CRITICAL", Severity::Critical),
    ];
    for (text, expected) in cases {
        assert_eq!(Severity::parse(text).unwrap(), expected);
        assert_eq!(Severity::from_str(text).unwrap(), expected);
        assert_eq!(text.parse::<Severity>().unwrap(), expected);
    }
}

#[test]
fn refuses_other_strings() {
    for text in ["", "dEbug", "warn", "info ", " info", "Infos", "trace", "CRITICAl", "6"] {
        let e: ParseError = Severity::parse(text).unwrap_err();
        assert_eq!(e.input, text);
        assert_eq!(e.message(), format!("Invalid severity: {}", text));
    }
}

#[test]
fn tags_run_from_one_to_six() {
    assert_eq!(Severity::Debug.tag(), 1);
    assert_eq!(Severity::Verbose.tag(), 2);
    assert_eq!(Severity::Info.tag(), 3);
    assert_eq!(Severity::Warning.tag(), 4);
    assert_eq!(Severity::Error.tag(), 5);
    assert_eq!(Severity::Critical.tag(), 6);
}

#[test]
fn orders_by_tag() {
    assert!(Severity::Debug < Severity::Verbose);
    assert!(Severity::Verbose < Severity::Info);
    assert!(Severity::Info < Severity::Warning);
    assert!(Severity::Warning < Severity::Error);
    assert!(Severity::Error < Severity::Critical);
    assert!(Severity::Critical > Severity::Debug);
    assert!(Severity::Info <= Severity::Info);
    assert!(!(Severity::Error < Severity::Info));
}

#[test]
fn default_is_info() {
    assert_eq!(Severity::default(), Severity::Info);
}

#[test]
fn shows_capitalized_name() {
    assert_eq!(Severity::Debug.to_string(), "Debug");
    assert_eq!(Severity::Verbose.to_string(), "Verbose");
    assert_eq!(Severity::Info.to_string(), "Info");
    assert_eq!(Severity::Warning.to_string(), "Warning");
    assert_eq!(Severity::Error.to_string(), "Error");
    assert_eq!(Severity::Critical.name(), "Critical");
}

#[test]
fn name_reads_back() {
    let all = [
        Severity::Debug,
        Severity::Verbose,
        Severity::Info,
        Severity::Warning,
        Severity::Error,
        Severity::Critical,
    ];
    for s in all {
        assert_eq!(Severity::parse(s.name()).unwrap(), s);
        assert_eq!(Severity::parse(&s.to_string()).unwrap(), s);
    }
}
