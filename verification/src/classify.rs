//! Building an entry from a severity and a list of keys and values.

use crate::entry::{LogEntry, LogEntryView};
use crate::fields::{
    last_value, lemma_put, lemma_sorted_unique, pair_views, put, strictly_sorted, Fields,
};
use crate::json::{json_object_text, EncodingError};
use crate::severity::Severity;
use crate::time::current_time_millis;
use crate::text::str_eq;
use vstd::prelude::*;
use vstd::string::*;

verus! {

/// Whether `key` names a field that an entry has a place for.
pub open spec fn is_reserved(key: Seq<char>) -> bool {
    key == "text"@ || key == "category"@ || key == "class_name"@ || key == "method_name"@ || key
        == "thread_id"@
}

/// The pairs whose keys are not reserved, in the order of their keys, each key
/// once and with the value that its last pair gives it.
pub open spec fn sorted_fields(pairs: Seq<(Seq<char>, Seq<char>)>) -> Seq<(Seq<char>, Seq<char>)>
    decreases pairs.len(),
{
    if pairs.len() == 0 {
        Seq::empty()
    } else if is_reserved(pairs.last().0) {
        sorted_fields(pairs.drop_last())
    } else {
        put(sorted_fields(pairs.drop_last()), pairs.last().0, pairs.last().1)
    }
}

/// The entry that the reserved keys among `pairs` describe. Its text is empty
/// where no pair supplies one.
pub open spec fn classified_entry(
    timestamp: u64,
    severity: Severity,
    pairs: Seq<(Seq<char>, Seq<char>)>,
) -> LogEntryView {
    LogEntryView {
        timestamp,
        severity,
        text: match last_value(pairs, "text"@) {
            Some(t) => t,
            None => Seq::empty(),
        },
        category: last_value(pairs, "category"@),
        class_name: last_value(pairs, "class_name"@),
        method_name: last_value(pairs, "method_name"@),
        thread_id: last_value(pairs, "thread_id"@),
    }
}

/// The text of an entry once the encoding of its other fields is known: the
/// text that was supplied, or else the encoded fields, or else a note that
/// they could not be encoded.
pub open spec fn settled_text(
    supplied: Option<Seq<char>>,
    encoded: Result<Seq<char>, Seq<char>>,
) -> Seq<char> {
    match supplied {
        Some(t) => t,
        None => match encoded {
            Ok(t) => t,
            Err(details) => "error serializing message: "@ + details,
        },
    }
}

/// The characters of an encoding or of what was said of its failure.
pub open spec fn encoded_view(encoded: Result<String, EncodingError>) -> Result<
    Seq<char>,
    Seq<char>,
> {
    match encoded {
        Ok(t) => Ok(t@),
        Err(e) => Err(e.details@),
    }
}

/// The sorted fields are sorted, and hold a pair exactly where its key is not
/// reserved and its value is the last that `pairs` gives to the key.
pub proof fn lemma_sorted_fields(pairs: Seq<(Seq<char>, Seq<char>)>)
    ensures
        strictly_sorted(sorted_fields(pairs)),
        forall|x: (Seq<char>, Seq<char>)| #[trigger]
            sorted_fields(pairs).contains(x) <==> (!is_reserved(x.0) && last_value(pairs, x.0)
                == Some(x.1)),
    decreases pairs.len(),
{
    if pairs.len() > 0 {
        let rest = pairs.drop_last();
        let (k, v) = pairs.last();
        lemma_sorted_fields(rest);
        if !is_reserved(k) {
            lemma_put(sorted_fields(rest), k, v);
        }
        assert forall|x: (Seq<char>, Seq<char>)| #[trigger]
            sorted_fields(pairs).contains(x) <==> (!is_reserved(x.0) && last_value(pairs, x.0)
                == Some(x.1)) by {
            assert(sorted_fields(rest).contains(x) <==> (!is_reserved(x.0) && last_value(
                rest,
                x.0,
            ) == Some(x.1)));
            if !is_reserved(k) {
                assert(put(sorted_fields(rest), k, v).contains(x) <==> (x == (k, v) || (
                sorted_fields(rest).contains(x) && x.0 != k)));
            }
        }
    }
}

/// The sorted fields are the only sorted sequence that holds those pairs.
pub proof fn lemma_sorted_fields_unique(
    pairs: Seq<(Seq<char>, Seq<char>)>,
    s: Seq<(Seq<char>, Seq<char>)>,
)
    requires
        strictly_sorted(s),
        forall|x: (Seq<char>, Seq<char>)| #[trigger]
            s.contains(x) <==> (!is_reserved(x.0) && last_value(pairs, x.0) == Some(x.1)),
    ensures
        s == sorted_fields(pairs),
{
    lemma_sorted_fields(pairs);
    let t = sorted_fields(pairs);
    assert forall|x: (Seq<char>, Seq<char>)| s.contains(x) <==> t.contains(x) by {
        assert(t.contains(x) <==> (!is_reserved(x.0) && last_value(pairs, x.0) == Some(x.1)));
    }
    lemma_sorted_unique(s, t);
}

/// An entry whose text is not settled yet, with the fields that may become it.
#[derive(Debug)]
pub struct Classified {
    /// The entry, with the text that was supplied, if any was.
    pub entry: LogEntry,
    /// Whether a text was supplied.
    pub has_text: bool,
    /// The fields that the entry has no place for.
    pub fields: Fields,
}

/// Sorts the pairs into an entry of the given time and severity. A reserved key
/// fills its field of the entry; any other key goes to the fields on the side.
/// Where a key comes twice, its last value stays.
pub fn classify(timestamp: u64, severity: Severity, pairs: &Vec<(String, String)>) -> (c:
    Classified)
    ensures
        c.entry@ == classified_entry(timestamp, severity, pair_views(pairs@)),
        c.has_text == (last_value(pair_views(pairs@), "text"@) is Some),
        c.fields@ == sorted_fields(pair_views(pairs@)),
{
    let ghost all = pair_views(pairs@);
    let mut entry: LogEntry = LogEntry::blank(timestamp, severity);
    let mut has_text: bool = false;
    let mut fields: Fields = Fields::new();
    let n: usize = pairs.len();
    let mut i: usize = 0;
    proof {
        reveal_strlit("text");
        reveal_strlit("category");
        reveal_strlit("class_name");
        reveal_strlit("method_name");
        reveal_strlit("thread_id");
        assert("category"@[1] == 'a' && "class_name"@[1] == 'l');
    }
    while i < n
        invariant
            n == pairs@.len(),
            all == pair_views(pairs@),
            i <= n,
            entry@ == classified_entry(timestamp, severity, all.take(i as int)),
            has_text == (last_value(all.take(i as int), "text"@) is Some),
            fields@ == sorted_fields(all.take(i as int)),
            "text"@.len() == 4,
            "category"@.len() == 8,
            "class_name"@.len() == 10,
            "method_name"@.len() == 11,
            "thread_id"@.len() == 9,
            "category"@[1] == 'a',
            "class_name"@[1] == 'l',
        decreases n - i,
    {
        let key: &str = pairs[i].0.as_str();
        let value: String = pairs[i].1.clone();
        proof {
            let next = all.take(i + 1);
            assert(next.drop_last() =~= all.take(i as int));
            assert(next.last() == (key@, value@));
        }
        if str_eq(key, "text") {
            entry.text = value;
            has_text = true;
        } else if str_eq(key, "category") {
            entry.category = Some(value);
        } else if str_eq(key, "class_name") {
            entry.class_name = Some(value);
        } else if str_eq(key, "method_name") {
            entry.method_name = Some(value);
        } else if str_eq(key, "thread_id") {
            entry.thread_id = Some(value);
        } else {
            fields.insert(String::from_str(key), value);
        }
        i = i + 1;
    }
    assert(all.take(n as int) =~= all);
    Classified { entry, has_text, fields }
}

impl Classified {
    /// The text that was supplied, if any was.
    pub open spec fn supplied(self) -> Option<Seq<char>> {
        if self.has_text {
            Some(self.entry@.text)
        } else {
            None
        }
    }

    /// Settles the text of the entry, given the outcome of encoding its other
    /// fields. A text that was supplied stays, and the fields are dropped.
    /// Otherwise the encoded fields become the text; where they could not be
    /// encoded, the text says so and the entry is made all the same.
    pub fn settle(self, encoded: Result<String, EncodingError>) -> (e: LogEntry)
        ensures
            e@ == (LogEntryView {
                text: settled_text(self.supplied(), encoded_view(encoded)),
                ..self.entry@
            }),
    {
        let mut entry: LogEntry = self.entry;
        if !self.has_text {
            match encoded {
                Ok(t) => {
                    entry.text = t;
                },
                Err(e) => {
                    let mut note: String = String::from_str("error serializing message: ");
                    note.append(e.details.as_str());
                    entry.text = note;
                },
            }
        }
        entry
    }
}

/// Builds the entry of the given time and severity that `pairs` describe. The
/// reserved keys fill their fields. The text is the one supplied under the key
/// `text`; without such a key it is the JSON object of the other keys and
/// their values, in the order of the keys. With such a key the other keys are
/// dropped. The entry is made in every case: where the object cannot be
/// written, the text is a note of the failure.
pub fn build_entry(timestamp: u64, severity: Severity, pairs: &Vec<(String, String)>) -> (e:
    LogEntry)
    ensures
        e@ == (LogEntryView { text: e@.text, ..classified_entry(timestamp, severity, pair_views(pairs@)) }),
        match last_value(pair_views(pairs@), "text"@) {
            Some(t) => e@.text == t,
            None => match json_object_text(sorted_fields(pair_views(pairs@))) {
                Some(t) => e@.text == t,
                None => exists|details: Seq<char>|
                    e@.text == "error serializing message: "@ + details,
            },
        },
{
    let c: Classified = classify(timestamp, severity, pairs);
    if c.has_text {
        c.entry
    } else {
        let encoded: Result<String, EncodingError> = c.fields.to_json();
        let ghost shown = encoded_view(encoded);
        let e: LogEntry = c.settle(encoded);
        proof {
            if shown is Err {
                assert(e@.text == "error serializing message: "@ + shown->Err_0);
            }
        }
        e
    }
}

/// Builds the entry that `pairs` describe, as `build_entry` does, and stamps
/// it with the current time.
pub fn log_entry(severity: Severity, pairs: &Vec<(String, String)>) -> (e: LogEntry)
    ensures
        e@ == (LogEntryView {
            text: e@.text,
            ..classified_entry(e@.timestamp, severity, pair_views(pairs@))
        }),
        match last_value(pair_views(pairs@), "text"@) {
            Some(t) => e@.text == t,
            None => match json_object_text(sorted_fields(pair_views(pairs@))) {
                Some(t) => e@.text == t,
                None => exists|details: Seq<char>|
                    e@.text == "error serializing message: "@ + details,
            },
        },
{
    build_entry(current_time_millis(), severity, pairs)
}

} // verus!
