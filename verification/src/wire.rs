//! The request body that carries a batch of entries to the backend.

use crate::entry::{opt_text, LogEntry, LogEntryView};
use crate::json::{json_string, json_string_text, EncodingError};
use crate::severity::Severity;
use crate::text::{decimal, decimal_text, join, joined, text_views};
use vstd::prelude::*;
use vstd::string::*;

verus! {

/// One member of a JSON object: the name in quotes, a colon, and the value as
/// it is written in JSON.
pub open spec fn member(name: Seq<char>, value: Seq<char>) -> Seq<char> {
    "\""@ + name + "\":"@ + value
}

/// A member that is written, behind a comma, only where it has a value.
pub open spec fn optional_member(name: Seq<char>, value: Option<Seq<char>>) -> Seq<char> {
    match value {
        Some(v) => ","@ + member(name, v),
        None => Seq::empty(),
    }
}

/// The JSON object of an entry whose strings are already written as JSON
/// string literals. The time and the severity's tag are numbers; an optional
/// field that is not set has no member.
pub open spec fn entry_object_text(q: LogEntryView) -> Seq<char> {
    "{"@ + member("timestamp"@, decimal(q.timestamp as nat)) + ","@ + member(
        "severity"@,
        decimal(q.severity.spec_tag() as nat),
    ) + ","@ + member("text"@, q.text) + optional_member("category"@, q.category)
        + optional_member("className"@, q.class_name) + optional_member(
        "methodName"@,
        q.method_name,
    ) + optional_member("threadId"@, q.thread_id) + "}"@
}

/// The JSON object of a batch: the key, the application, the subsystem, each
/// already written as a JSON string literal, and the entries, each already
/// written as a JSON object.
pub open spec fn envelope_text(
    private_key: Seq<char>,
    application_name: Seq<char>,
    subsystem_name: Seq<char>,
    entries: Seq<Seq<char>>,
) -> Seq<char> {
    "{"@ + member("privateKey"@, private_key) + ","@ + member("applicationName"@, application_name)
        + ","@ + member("subsystemName"@, subsystem_name) + ","@ + member(
        "logEntries"@,
        "["@ + joined(entries, ","@) + "]"@,
    ) + "}"@
}

/// Whether an optional string, where it is set, can be written as a JSON
/// string literal.
pub open spec fn can_quote(o: Option<Seq<char>>) -> bool {
    o matches Some(s) ==> json_string_text(s) is Some
}

/// The JSON string literal of an optional string, where it is set.
pub open spec fn quoted(o: Option<Seq<char>>) -> Option<Seq<char>> {
    match o {
        Some(s) => json_string_text(s),
        None => None,
    }
}

/// The JSON object of an entry, where each of its strings can be written.
pub open spec fn entry_json(e: LogEntryView) -> Option<Seq<char>> {
    if json_string_text(e.text) is Some && can_quote(e.category) && can_quote(e.class_name)
        && can_quote(e.method_name) && can_quote(e.thread_id) {
        Some(
            entry_object_text(
                LogEntryView {
                    timestamp: e.timestamp,
                    severity: e.severity,
                    text: json_string_text(e.text)->0,
                    category: quoted(e.category),
                    class_name: quoted(e.class_name),
                    method_name: quoted(e.method_name),
                    thread_id: quoted(e.thread_id),
                },
            ),
        )
    } else {
        None
    }
}

/// The JSON objects of the entries, in their order, where each can be written.
pub open spec fn entries_json(es: Seq<LogEntry>) -> Option<Seq<Seq<char>>> {
    if forall|i: int| 0 <= i < es.len() ==> (#[trigger] entry_json(es[i]@)) is Some {
        Some(Seq::new(es.len(), |i: int| entry_json(es[i]@)->0))
    } else {
        None
    }
}

/// The request body for a batch, where all of it can be written.
pub open spec fn batch_json(
    private_key: Seq<char>,
    application_name: Seq<char>,
    subsystem_name: Seq<char>,
    es: Seq<LogEntry>,
) -> Option<Seq<char>> {
    if json_string_text(private_key) is Some && json_string_text(application_name) is Some
        && json_string_text(subsystem_name) is Some && entries_json(es) is Some {
        Some(
            envelope_text(
                json_string_text(private_key)->0,
                json_string_text(application_name)->0,
                json_string_text(subsystem_name)->0,
                entries_json(es)->0,
            ),
        )
    } else {
        None
    }
}

/// Appends the member `name` with `value` to `r`.
fn push_member(r: &mut String, name: &str, value: &str)
    ensures
        final(r)@ == old(r)@ + member(name@, value@),
{
    r.append("\"");
    r.append(name);
    r.append("\":");
    r.append(value);
    assert(r@ =~= old(r)@ + member(name@, value@));
}

/// Appends the member `name` to `r`, behind a comma, where it has a value.
fn push_optional_member(r: &mut String, name: &str, value: &Option<String>)
    ensures
        final(r)@ == old(r)@ + optional_member(name@, opt_text(*value)),
{
    match value {
        Some(v) => {
            r.append(",");
            r.append("\"");
            r.append(name);
            r.append("\":");
            r.append(v.as_str());
            assert(r@ =~= old(r)@ + optional_member(name@, opt_text(*value)));
        },
        None => {
            assert(r@ =~= old(r)@ + optional_member(name@, opt_text(*value)));
        },
    }
}

/// Writes the JSON object of an entry. Each string is given as it is written
/// in JSON, quotes included.
pub fn entry_object(
    timestamp: u64,
    severity: Severity,
    text: &str,
    category: &Option<String>,
    class_name: &Option<String>,
    method_name: &Option<String>,
    thread_id: &Option<String>,
) -> (r: String)
    ensures
        r@ == entry_object_text(
            LogEntryView {
                timestamp,
                severity,
                text: text@,
                category: opt_text(*category),
                class_name: opt_text(*class_name),
                method_name: opt_text(*method_name),
                thread_id: opt_text(*thread_id),
            },
        ),
{
    let time: String = decimal_text(timestamp);
    let tag: String = decimal_text(severity.tag() as u64);
    let mut r: String = String::from_str("{");
    push_member(&mut r, "timestamp", time.as_str());
    r.append(",");
    push_member(&mut r, "severity", tag.as_str());
    r.append(",");
    push_member(&mut r, "text", text);
    push_optional_member(&mut r, "category", category);
    push_optional_member(&mut r, "className", class_name);
    push_optional_member(&mut r, "methodName", method_name);
    push_optional_member(&mut r, "threadId", thread_id);
    r.append("}");
    r
}

/// Writes the JSON object of a batch. The three strings are given as they are
/// written in JSON, quotes included, and each entry as its JSON object.
pub fn envelope(
    private_key: &str,
    application_name: &str,
    subsystem_name: &str,
    entries: &Vec<String>,
) -> (r: String)
    ensures
        r@ == envelope_text(
            private_key@,
            application_name@,
            subsystem_name@,
            text_views(entries@),
        ),
{
    let mut list: String = String::from_str("[");
    let items: String = join(entries, ",");
    list.append(items.as_str());
    list.append("]");
    let mut r: String = String::from_str("{");
    push_member(&mut r, "privateKey", private_key);
    r.append(",");
    push_member(&mut r, "applicationName", application_name);
    r.append(",");
    push_member(&mut r, "subsystemName", subsystem_name);
    r.append(",");
    push_member(&mut r, "logEntries", list.as_str());
    r.append("}");
    r
}

/// Writes an optional string, where it is set, as a JSON string literal.
fn quote_optional(o: &Option<String>) -> (r: Result<Option<String>, EncodingError>)
    ensures
        match r {
            Ok(q) => can_quote(opt_text(*o)) && opt_text(q) == quoted(opt_text(*o)),
            Err(_) => !can_quote(opt_text(*o)),
        },
{
    match o {
        Some(s) => match json_string(s.as_str()) {
            Ok(q) => Ok(Some(q)),
            Err(e) => Err(e),
        },
        None => Ok(None),
    }
}

/// Writes an entry as the JSON object that stands for it in a request. It
/// fails only where one of the entry's strings cannot be written.
pub fn encode_entry(e: &LogEntry) -> (r: Result<String, EncodingError>)
    ensures
        match r {
            Ok(t) => entry_json(e@) == Some(t@),
            Err(_) => entry_json(e@) is None,
        },
{
    let text: String = match json_string(e.text.as_str()) {
        Ok(q) => q,
        Err(err) => {
            return Err(err);
        },
    };
    let category: Option<String> = match quote_optional(&e.category) {
        Ok(q) => q,
        Err(err) => {
            return Err(err);
        },
    };
    let class_name: Option<String> = match quote_optional(&e.class_name) {
        Ok(q) => q,
        Err(err) => {
            return Err(err);
        },
    };
    let method_name: Option<String> = match quote_optional(&e.method_name) {
        Ok(q) => q,
        Err(err) => {
            return Err(err);
        },
    };
    let thread_id: Option<String> = match quote_optional(&e.thread_id) {
        Ok(q) => q,
        Err(err) => {
            return Err(err);
        },
    };
    Ok(
        entry_object(
            e.timestamp,
            e.severity,
            text.as_str(),
            &category,
            &class_name,
            &method_name,
            &thread_id,
        ),
    )
}

/// Writes each entry as its JSON object, in the order of the entries. It
/// fails only where one of them cannot be written.
pub fn encode_entries(entries: &Vec<LogEntry>) -> (r: Result<Vec<String>, EncodingError>)
    ensures
        match r {
            Ok(v) => entries_json(entries@) == Some(text_views(v@)),
            Err(_) => entries_json(entries@) is None,
        },
{
    let mut out: Vec<String> = Vec::new();
    let n: usize = entries.len();
    let mut i: usize = 0;
    while i < n
        invariant
            n == entries@.len(),
            i <= n,
            out@.len() == i,
            forall|j: int| 0 <= j < i ==> entry_json(#[trigger] entries@[j]@) == Some(out@[j]@),
        decreases n - i,
    {
        match encode_entry(&entries[i]) {
            Ok(t) => {
                out.push(t);
            },
            Err(err) => {
                assert(entry_json(entries@[i as int]@) is None);
                return Err(err);
            },
        }
        i = i + 1;
    }
    assert(entries_json(entries@)->0 =~= text_views(out@));
    Ok(out)
}

/// Writes the request body for a batch: the key, the application and the
/// subsystem, and the entries in their order. It fails only where one of the
/// strings cannot be written.
pub fn encode_batch(
    private_key: &str,
    application_name: &str,
    subsystem_name: &str,
    entries: &Vec<LogEntry>,
) -> (r: Result<String, EncodingError>)
    ensures
        match r {
            Ok(t) => batch_json(private_key@, application_name@, subsystem_name@, entries@)
                == Some(t@),
            Err(_) => batch_json(private_key@, application_name@, subsystem_name@, entries@)
                is None,
        },
{
    let key: String = match json_string(private_key) {
        Ok(q) => q,
        Err(err) => {
            return Err(err);
        },
    };
    let application: String = match json_string(application_name) {
        Ok(q) => q,
        Err(err) => {
            return Err(err);
        },
    };
    let subsystem: String = match json_string(subsystem_name) {
        Ok(q) => q,
        Err(err) => {
            return Err(err);
        },
    };
    let objects: Vec<String> = match encode_entries(entries) {
        Ok(v) => v,
        Err(err) => {
            return Err(err);
        },
    };
    Ok(envelope(key.as_str(), application.as_str(), subsystem.as_str(), &objects))
}

/// An entry in which no optional field is set is written with three members
/// and no more: a field that is not set leaves no trace in the object.
pub proof fn lemma_unset_fields_are_absent(q: LogEntryView)
    ensures
        forall|name: Seq<char>| #[trigger] optional_member(name, None) == Seq::<char>::empty(),
        q.category is None && q.class_name is None && q.method_name is None && q.thread_id
            is None ==> entry_object_text(q) == "{"@ + member(
            "timestamp"@,
            decimal(q.timestamp as nat),
        ) + ","@ + member("severity"@, decimal(q.severity.spec_tag() as nat)) + ","@ + member(
            "text"@,
            q.text,
        ) + "}"@,
{
    if q.category is None && q.class_name is None && q.method_name is None && q.thread_id
        is None {
        let head = "{"@ + member("timestamp"@, decimal(q.timestamp as nat)) + ","@ + member(
            "severity"@,
            decimal(q.severity.spec_tag() as nat),
        ) + ","@ + member("text"@, q.text);
        assert(head + Seq::<char>::empty() =~= head);
    }
}

} // verus!
