//! The log record and its one-line renderings.

use crate::severity::Severity;
use crate::text::{decimal, decimal_text};
use crate::time::current_time_millis;
use vstd::prelude::*;
use vstd::string::*;

verus! {

/// One structured log record.
#[derive(Debug)]
pub struct LogEntry {
    /// Milliseconds since the epoch, in UTC.
    pub timestamp: u64,
    /// Severity of this entry.
    pub severity: Severity,
    /// Text of this entry: what the caller supplied, or the remaining fields
    /// as a JSON object with its keys in order.
    pub text: String,
    /// Optional category, defined by the application.
    pub category: Option<String>,
    /// Optional class name, defined by the application.
    pub class_name: Option<String>,
    /// Optional method name, defined by the application.
    pub method_name: Option<String>,
    /// Optional thread identifier.
    pub thread_id: Option<String>,
}

/// What a log record holds, with each string as the sequence of its characters.
pub struct LogEntryView {
    pub timestamp: u64,
    pub severity: Severity,
    pub text: Seq<char>,
    pub category: Option<Seq<char>>,
    pub class_name: Option<Seq<char>>,
    pub method_name: Option<Seq<char>>,
    pub thread_id: Option<Seq<char>>,
}

/// The characters of an optional string.
pub open spec fn opt_text(o: Option<String>) -> Option<Seq<char>> {
    match o {
        Some(s) => Some(s@),
        None => None,
    }
}

/// An entry with nothing in it but its time and severity.
pub open spec fn blank_entry(timestamp: u64, severity: Severity) -> LogEntryView {
    LogEntryView {
        timestamp,
        severity,
        text: Seq::empty(),
        category: None,
        class_name: None,
        method_name: None,
        thread_id: None,
    }
}

/// The line that shows an entry: its time, its severity and its text, with one
/// space between them.
pub open spec fn entry_line(e: LogEntryView) -> Seq<char> {
    decimal(e.timestamp as nat) + " "@ + e.severity.spec_name() + " "@ + e.text
}

/// The line that the console shows for an entry on channel `sub`: the time,
/// the channel, the severity and the text, with one space between them.
pub open spec fn console_line(sub: Seq<char>, e: LogEntryView) -> Seq<char> {
    decimal(e.timestamp as nat) + " "@ + sub + " "@ + e.severity.spec_name() + " "@ + e.text
}

impl View for LogEntry {
    type V = LogEntryView;

    open spec fn view(&self) -> LogEntryView {
        LogEntryView {
            timestamp: self.timestamp,
            severity: self.severity,
            text: self.text@,
            category: opt_text(self.category),
            class_name: opt_text(self.class_name),
            method_name: opt_text(self.method_name),
            thread_id: opt_text(self.thread_id),
        }
    }
}

impl LogEntry {
    /// An entry of the given time and severity, with empty text and no
    /// optional field.
    pub fn blank(timestamp: u64, severity: Severity) -> (r: LogEntry)
        ensures
            r@ == blank_entry(timestamp, severity),
    {
        LogEntry {
            timestamp,
            severity,
            text: String::new(),
            category: None,
            class_name: None,
            method_name: None,
            thread_id: None,
        }
    }

    /// The entry on one line, without its optional fields.
    pub fn to_string(&self) -> (r: String)
        ensures
            r@ == entry_line(self@),
    {
        let mut r: String = decimal_text(self.timestamp);
        r.append(" ");
        r.append(self.severity.name());
        r.append(" ");
        r.append(self.text.as_str());
        r
    }

    /// The entry on one line as the console shows it on channel `sub`.
    pub fn console_line(&self, sub: &str) -> (r: String)
        ensures
            r@ == console_line(sub@, self@),
    {
        let mut r: String = decimal_text(self.timestamp);
        r.append(" ");
        r.append(sub);
        r.append(" ");
        r.append(self.severity.name());
        r.append(" ");
        r.append(self.text.as_str());
        r
    }
}

impl Default for LogEntry {
    /// A blank entry of severity `Debug`, stamped with the current time.
    fn default() -> (r: LogEntry)
        ensures
            r@ == blank_entry(r.timestamp, Severity::Debug),
    {
        LogEntry::blank(current_time_millis(), Severity::Debug)
    }
}

} // verus!
