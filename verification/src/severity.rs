//! Severity levels: their order, their names and their wire tags.

use crate::text::str_eq;
use std::cmp::Ordering;
use vstd::prelude::*;
use vstd::string::*;

verus! {

/// Severity level of a log entry, from the least severe to the most.
#[derive(Clone, Copy, Debug, PartialEq, Eq, Structural)]
pub enum Severity {
    /// The most verbose level, also known as trace.
    Debug,
    /// Verbose logging.
    Verbose,
    /// Warnings plus major events.
    Info,
    /// All errors and warnings, no informational messages.
    Warning,
    /// Errors only.
    Error,
    /// Critical errors only.
    Critical,
}

/// Logging level, another name for [`Severity`].
pub type LogLevel = Severity;

/// A string that names no severity.
#[derive(Debug)]
pub struct ParseError {
    /// The text that was offered.
    pub input: String,
}

/// The severity that `s` names, in lower case, capitalized or in upper case.
pub open spec fn severity_named(s: Seq<char>) -> Option<Severity> {
    if s == "debug"@ || s == "Debug"@ || s == "DEBUG"@ {
        Some(Severity::Debug)
    } else if s == "verbose"@ || s == "Verbose"@ || s == "VERBOSE"@ {
        Some(Severity::Verbose)
    } else if s == "info"@ || s == "Info"@ || s == "INFO"@ {
        Some(Severity::Info)
    } else if s == "warning"@ || s == "Warning"@ || s == "WARNING"@ {
        Some(Severity::Warning)
    } else if s == "error"@ || s == "Error"@ || s == "ERROR"@ {
        Some(Severity::Error)
    } else if s == "critical"@ || s == "Critical"@ || s == "CRITICAL"@ {
        Some(Severity::Critical)
    } else {
        None
    }
}

impl Severity {
    /// The integer by which a severity is ordered and sent over the wire.
    pub open spec fn spec_tag(self) -> u8 {
        match self {
            Severity::Debug => 1,
            Severity::Verbose => 2,
            Severity::Info => 3,
            Severity::Warning => 4,
            Severity::Error => 5,
            Severity::Critical => 6,
        }
    }

    /// The capitalized name under which a severity is displayed.
    pub open spec fn spec_name(self) -> Seq<char> {
        match self {
            Severity::Debug => "Debug"@,
            Severity::Verbose => "Verbose"@,
            Severity::Info => "Info"@,
            Severity::Warning => "Warning"@,
            Severity::Error => "Error"@,
            Severity::Critical => "Critical"@,
        }
    }

    /// The wire tag of this severity, between 1 and 6.
    #[verifier::when_used_as_spec(spec_tag)]
    pub fn tag(self) -> (t: u8)
        ensures
            t == self.spec_tag(),
            1 <= t <= 6,
    {
        match self {
            Severity::Debug => 1,
            Severity::Verbose => 2,
            Severity::Info => 3,
            Severity::Warning => 4,
            Severity::Error => 5,
            Severity::Critical => 6,
        }
    }

    /// The capitalized name of this severity.
    pub fn name(self) -> (r: &'static str)
        ensures
            r@ == self.spec_name(),
    {
        match self {
            Severity::Debug => "Debug",
            Severity::Verbose => "Verbose",
            Severity::Info => "Info",
            Severity::Warning => "Warning",
            Severity::Error => "Error",
            Severity::Critical => "Critical",
        }
    }

    /// The capitalized name of this severity, as an owned string.
    pub fn to_string(&self) -> (r: String)
        ensures
            r@ == self.spec_name(),
    {
        String::from_str(self.name())
    }

    /// Reads a severity from its name. The name may be written in lower case,
    /// capitalized or in upper case; any other text is handed back in the error.
    pub fn parse(s: &str) -> (r: Result<Severity, ParseError>)
        ensures
            match r {
                Ok(v) => severity_named(s@) == Some(v),
                Err(e) => severity_named(s@) is None && e.input@ == s@,
            },
    {
        if str_eq(s, "debug") || str_eq(s, "Debug") || str_eq(s, "DEBUG") {
            Ok(Severity::Debug)
        } else if str_eq(s, "verbose") || str_eq(s, "Verbose") || str_eq(s, "VERBOSE") {
            Ok(Severity::Verbose)
        } else if str_eq(s, "info") || str_eq(s, "Info") || str_eq(s, "INFO") {
            Ok(Severity::Info)
        } else if str_eq(s, "warning") || str_eq(s, "Warning") || str_eq(s, "WARNING") {
            Ok(Severity::Warning)
        } else if str_eq(s, "error") || str_eq(s, "Error") || str_eq(s, "ERROR") {
            Ok(Severity::Error)
        } else if str_eq(s, "critical") || str_eq(s, "Critical") || str_eq(s, "CRITICAL") {
            Ok(Severity::Critical)
        } else {
            Err(ParseError { input: String::from_str(s) })
        }
    }
}

impl ParseError {
    /// The text of this error: a fixed prefix, then the input that was refused.
    pub open spec fn spec_message(self) -> Seq<char> {
        "Invalid severity: "@ + self.input@
    }

    /// The text of this error.
    pub fn message(&self) -> (r: String)
        ensures
            r@ == self.spec_message(),
    {
        let mut r: String = String::from_str("Invalid severity: ");
        r.append(self.input.as_str());
        r
    }
}

impl Default for Severity {
    /// The default severity is `Info`.
    fn default() -> (r: Severity)
        ensures
            r == Severity::Info,
    {
        Severity::Info
    }
}

impl std::str::FromStr for Severity {
    type Err = ParseError;

    /// As [`Severity::parse`].
    fn from_str(s: &str) -> (r: Result<Severity, ParseError>)
        ensures
            match r {
                Ok(v) => severity_named(s@) == Some(v),
                Err(e) => severity_named(s@) is None && e.input@ == s@,
            },
    {
        Severity::parse(s)
    }
}

impl PartialOrd for Severity {
    /// Severities are ordered by their tags.
    fn partial_cmp(&self, other: &Severity) -> (r: Option<Ordering>) {
        let a: u8 = self.tag();
        let b: u8 = other.tag();
        if a < b {
            Some(Ordering::Less)
        } else if a == b {
            Some(Ordering::Equal)
        } else {
            Some(Ordering::Greater)
        }
    }
}

impl vstd::std_specs::cmp::PartialOrdSpecImpl for Severity {
    open spec fn obeys_partial_cmp_spec() -> bool {
        true
    }

    open spec fn partial_cmp_spec(&self, other: &Severity) -> Option<Ordering> {
        if self.spec_tag() < other.spec_tag() {
            Some(Ordering::Less)
        } else if self.spec_tag() == other.spec_tag() {
            Some(Ordering::Equal)
        } else {
            Some(Ordering::Greater)
        }
    }
}

/// Each of the eighteen spellings names its severity, and the capitalized
/// name of a severity reads back as that severity.
pub proof fn lemma_spellings(v: Severity)
    ensures
        severity_named("debug"@) == Some(Severity::Debug),
        severity_named("Debug"@) == Some(Severity::Debug),
        severity_named("DEBUG"@) == Some(Severity::Debug),
        severity_named("verbose"@) == Some(Severity::Verbose),
        severity_named("Verbose"@) == Some(Severity::Verbose),
        severity_named("VERBOSE"@) == Some(Severity::Verbose),
        severity_named("info"@) == Some(Severity::Info),
        severity_named("Info"@) == Some(Severity::Info),
        severity_named("INFO"@) == Some(Severity::Info),
        severity_named("warning"@) == Some(Severity::Warning),
        severity_named("Warning"@) == Some(Severity::Warning),
        severity_named("WARNING"@) == Some(Severity::Warning),
        severity_named("error"@) == Some(Severity::Error),
        severity_named("Error"@) == Some(Severity::Error),
        severity_named("ERROR"@) == Some(Severity::Error),
        severity_named("critical"@) == Some(Severity::Critical),
        severity_named("Critical"@) == Some(Severity::Critical),
        severity_named("CRITICAL"@) == Some(Severity::Critical),
        severity_named(v.spec_name()) == Some(v),
{
    reveal_strlit("debug");
    reveal_strlit("Debug");
    reveal_strlit("DEBUG");
    reveal_strlit("verbose");
    reveal_strlit("Verbose");
    reveal_strlit("VERBOSE");
    reveal_strlit("info");
    reveal_strlit("Info");
    reveal_strlit("INFO");
    reveal_strlit("warning");
    reveal_strlit("Warning");
    reveal_strlit("WARNING");
    reveal_strlit("error");
    reveal_strlit("Error");
    reveal_strlit("ERROR");
    reveal_strlit("critical");
    reveal_strlit("Critical");
    reveal_strlit("CRITICAL");
    assert("verbose"@[0] == 'v' && "Verbose"@[0] == 'V' && "VERBOSE"@[1] == 'E');
    assert("info"@[0] == 'i' && "Info"@[0] == 'I' && "INFO"@[1] == 'N');
    assert("warning"@[0] == 'w' && "Warning"@[0] == 'W' && "WARNING"@[1] == 'A');
    assert("error"@[0] == 'e' && "Error"@[0] == 'E' && "ERROR"@[1] == 'R');
    assert("critical"@[0] == 'c' && "Critical"@[0] == 'C' && "CRITICAL"@[1] == 'R');
    assert("debug"@[0] == 'd' && "Debug"@[0] == 'D' && "DEBUG"@[1] == 'E');
    assert("VERBOSE"@[0] == 'V' && "DEBUG"@[0] == 'D');
    assert("WARNING"@[0] == 'W' && "INFO"@[0] == 'I' && "ERROR"@[0] == 'E');
    assert("CRITICAL"@[0] == 'C');
}

/// The tag tells severities apart, and the order of severities is that of
/// their tags: `Debug` is the least severe and `Critical` the most.
pub proof fn lemma_tags(v: Severity, w: Severity)
    ensures
        1 <= v.spec_tag() <= 6,
        v.spec_tag() == w.spec_tag() <==> v == w,
        Severity::Debug.spec_tag() < Severity::Verbose.spec_tag() < Severity::Info.spec_tag()
            < Severity::Warning.spec_tag() < Severity::Error.spec_tag()
            < Severity::Critical.spec_tag(),
{
}

} // verus!
