//! Sinks for batches of entries. A sink does no input or output itself: it
//! says what is to be done with a batch, and judges what came of it.

use crate::entry::{console_line, LogEntry};
use crate::text::{decimal, decimal_text, text_views};
use crate::wire::{batch_json, encode_batch};
use vstd::prelude::*;
use vstd::string::*;

verus! {

/// Why a batch was not delivered.
#[derive(Debug)]
pub enum SendError {
    /// The request could not be made or did not get through. Holds what is
    /// known of the cause.
    Transport(String),
    /// The backend answered with a status outside the range of success. Holds
    /// the status and the body of the answer.
    Backend { status: u16, body: String },
}

/// One POST request: where it goes and what it carries.
#[derive(Debug)]
pub struct PostRequest {
    /// The URL to post to.
    pub endpoint: String,
    /// The request body, a JSON object.
    pub body: String,
}

/// What is to be done to deliver a batch.
#[derive(Debug)]
pub enum Delivery {
    /// Nothing: the batch counts as delivered.
    Nothing,
    /// Each line is written to the console, in order.
    Console(Vec<String>),
    /// The request is made, once.
    Post(PostRequest),
}

/// What came of one POST request.
#[derive(Debug)]
pub enum Reply {
    /// No answer came. Holds what is known of the cause.
    Failed(String),
    /// An answer came, with this status. The body is there where it was read.
    Answered { status: u16, body: Option<String> },
}

/// Whether an HTTP status stands for success.
pub open spec fn is_success(status: u16) -> bool {
    200 <= status < 300
}

/// The text of the error for an answer with this status and body.
pub open spec fn backend_message(status: u16, body: Seq<char>) -> Seq<char> {
    "Logging Error: status:"@ + decimal(status as nat) + " "@ + body
}

/// The body of an answer as far as it was read: empty where it was not.
pub open spec fn read_body(body: Option<String>) -> Seq<char> {
    match body {
        Some(t) => t@,
        None => Seq::empty(),
    }
}

impl SendError {
    /// Whether this is the error for an answer with this status and body.
    pub open spec fn is_backend(self, status: u16, body: Seq<char>) -> bool {
        &&& self matches SendError::Backend { status: s, body: b }
        &&& s == status
        &&& b@ == body
    }

    /// Whether this is a transport error with this cause.
    pub open spec fn is_transport(self, cause: Seq<char>) -> bool {
        &&& self matches SendError::Transport(c)
        &&& c@ == cause
    }

    /// The text of this error: the cause of a transport failure as it is, or
    /// the status and the body of the backend's answer.
    pub open spec fn spec_message(self) -> Seq<char> {
        match self {
            SendError::Transport(cause) => cause@,
            SendError::Backend { status, body } => backend_message(status, body@),
        }
    }

    /// The text of this error.
    pub fn message(&self) -> (r: String)
        ensures
            r@ == self.spec_message(),
    {
        match self {
            SendError::Transport(cause) => cause.clone(),
            SendError::Backend { status, body } => {
                let mut r: String = String::from_str("Logging Error: status:");
                r.append(decimal_text(*status as u64).as_str());
                r.append(" ");
                r.append(body.as_str());
                r
            },
        }
    }
}

/// A service that receives batches of log entries.
pub trait Logger {
    /// Says what is to be done to deliver `entries` on the channel `sub`. An
    /// empty batch is delivered by doing nothing.
    fn send(&self, sub: &str, entries: Vec<LogEntry>) -> (r: Result<Delivery, SendError>)
        ensures
            entries@.len() == 0 ==> r matches Ok(Delivery::Nothing),
    ;
}

/// Logger that drops what it is sent.
#[derive(Debug)]
pub struct BlackHoleLogger {}

impl Logger for BlackHoleLogger {
    fn send(&self, sub: &str, entries: Vec<LogEntry>) -> (r: Result<Delivery, SendError>)
        ensures
            r matches Ok(Delivery::Nothing),
    {
        Ok(Delivery::Nothing)
    }
}

/// Creates a logger that logs nothing.
pub fn silent_logger() -> (r: Box<BlackHoleLogger>) {
    Box::new(BlackHoleLogger {  })
}

/// The line of each entry of `es`, as the console shows it on channel `sub`.
pub open spec fn console_lines(sub: Seq<char>, es: Seq<LogEntry>) -> Seq<Seq<char>> {
    Seq::new(es.len(), |i: int| console_line(sub, es[i]@))
}

/// Logger that shows each entry on the console, one line each.
#[derive(Default, Debug)]
pub struct ConsoleLogger {}

impl ConsoleLogger {
    /// Initializes a console logger.
    pub fn init() -> (r: Box<ConsoleLogger>) {
        Box::new(ConsoleLogger {  })
    }
}

impl Logger for ConsoleLogger {
    /// Asks for one line per entry, in the order of the entries. This never
    /// fails.
    fn send(&self, sub: &str, entries: Vec<LogEntry>) -> (r: Result<Delivery, SendError>)
        ensures
            entries@.len() == 0 ==> r matches Ok(Delivery::Nothing),
            entries@.len() > 0 ==> (r matches Ok(Delivery::Console(lines)) && text_views(lines@)
                == console_lines(sub@, entries@)),
    {
        let n: usize = entries.len();
        if n == 0 {
            return Ok(Delivery::Nothing);
        }
        let mut lines: Vec<String> = Vec::new();
        let mut i: usize = 0;
        while i < n
            invariant
                n == entries@.len(),
                i <= n,
                lines@.len() == i,
                forall|j: int| 0 <= j < i ==> (#[trigger] lines@[j])@ == console_line(sub@, entries@[j]@),
            decreases n - i,
        {
            lines.push(entries[i].console_line(sub));
            i = i + 1;
        }
        assert(text_views(lines@) =~= console_lines(sub@, entries@));
        Ok(Delivery::Console(lines))
    }
}

/// The content type of every request.
pub const CONTENT_TYPE: &'static str = "application/json";

/// The user agent of every request: the name of this library and its version.
pub const USER_AGENT: &'static str = "service_logging/0.4.8";

/// Configuration parameters for the Coralogix service.
#[derive(Debug)]
pub struct CoralogixConfig<'config> {
    /// API key, provided by Coralogix.
    pub api_key: &'config str,
    /// Application name, sent with every batch.
    pub application_name: &'config str,
    /// URL of the service, to which batches are posted.
    pub endpoint: &'config str,
}

/// Logger for the Coralogix service.
#[derive(Debug)]
pub struct CoralogixLogger {
    api_key: String,
    application_name: String,
    endpoint: String,
}

/// What a Coralogix logger was made with.
pub struct CoralogixView {
    pub api_key: Seq<char>,
    pub application_name: Seq<char>,
    pub endpoint: Seq<char>,
}

impl View for CoralogixLogger {
    type V = CoralogixView;

    closed spec fn view(&self) -> CoralogixView {
        CoralogixView {
            api_key: self.api_key@,
            application_name: self.application_name@,
            endpoint: self.endpoint@,
        }
    }
}

impl CoralogixLogger {
    /// Initializes a logger with the configuration, which it keeps for good.
    pub fn init(config: CoralogixConfig) -> (r: CoralogixLogger)
        ensures
            r@ == (CoralogixView {
                api_key: config.api_key@,
                application_name: config.application_name@,
                endpoint: config.endpoint@,
            }),
    {
        CoralogixLogger {
            api_key: String::from_str(config.api_key),
            application_name: String::from_str(config.application_name),
            endpoint: String::from_str(config.endpoint),
        }
    }
}

impl Logger for CoralogixLogger {
    /// Asks for one POST request that carries the whole batch to the endpoint,
    /// or for nothing where the batch is empty. It fails, before any request
    /// is made, only where the batch cannot be written as JSON.
    fn send(&self, sub: &str, entries: Vec<LogEntry>) -> (r: Result<Delivery, SendError>)
        ensures
            entries@.len() == 0 ==> r matches Ok(Delivery::Nothing),
            entries@.len() > 0 ==> match batch_json(
                self@.api_key,
                self@.application_name,
                sub@,
                entries@,
            ) {
                Some(body) => r matches Ok(Delivery::Post(request)) && request.endpoint@
                    == self@.endpoint && request.body@ == body,
                None => r matches Err(SendError::Transport(_)),
            },
    {
        if entries.len() == 0 {
            return Ok(Delivery::Nothing);
        }
        match encode_batch(self.api_key.as_str(), self.application_name.as_str(), sub, &entries) {
            Ok(body) => Ok(Delivery::Post(PostRequest { endpoint: self.endpoint.clone(), body })),
            Err(e) => Err(SendError::Transport(e.details)),
        }
    }
}

/// Judges the answer to a request by its status. A status from 200 up to, but
/// not including, 300 is success. Any other is an error that holds the status
/// and the body of the answer, or an empty body where none was read.
pub fn check_status(status: u16, body: Option<String>) -> (r: Result<(), SendError>)
    ensures
        match r {
            Ok(_) => is_success(status),
            Err(e) => !is_success(status) && e.is_backend(status, read_body(body)),
        },
{
    if 200 <= status && status < 300 {
        Ok(())
    } else {
        let body: String = match body {
            Some(t) => t,
            None => String::new(),
        };
        Err(SendError::Backend { status, body })
    }
}

/// Judges what came of a request. A request that got no answer is a transport
/// error with the cause that was given; an answer is judged by its status.
pub fn conclude(reply: Reply) -> (r: Result<(), SendError>)
    ensures
        match reply {
            Reply::Failed(cause) => r matches Err(e) && e.is_transport(cause@),
            Reply::Answered { status, body } => match r {
                Ok(_) => is_success(status),
                Err(e) => !is_success(status) && e.is_backend(status, read_body(body)),
            },
        },
{
    match reply {
        Reply::Failed(cause) => Err(SendError::Transport(cause)),
        Reply::Answered { status, body } => check_status(status, body),
    }
}

/// The text of a backend error shows the status in decimal and ends with the
/// body of the answer.
pub proof fn lemma_backend_message(status: u16, body: Seq<char>)
    ensures
        ({
            let m = backend_message(status, body);
            let d = decimal(status as nat);
            let at = "Logging Error: status:"@.len() as int;
            &&& m.subrange(at, at + d.len()) == d
            &&& m.subrange(m.len() - body.len(), m.len() as int) == body
        }),
{
    let m = backend_message(status, body);
    let d = decimal(status as nat);
    let at = "Logging Error: status:"@.len() as int;
    assert(m.subrange(at, at + d.len()) =~= d);
    assert(m.subrange(m.len() - body.len(), m.len() as int) =~= body);
}

} // verus!
