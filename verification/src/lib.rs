//! Structured logging: typed records are collected in a queue and handed,
//! batch by batch, to a sink that says how the batch is to be delivered.

pub mod classify;
pub mod entry;
pub mod fields;
pub mod json;
pub mod logger;
pub mod queue;
pub mod severity;
pub mod text;
pub mod time;
pub mod wire;

pub use classify::{build_entry, classify, log_entry, Classified};
pub use entry::LogEntry;
pub use fields::Fields;
pub use json::{json_string, EncodingError};
pub use logger::{
    check_status, conclude, silent_logger, BlackHoleLogger, ConsoleLogger, CoralogixConfig,
    CoralogixLogger, Delivery, Logger, PostRequest, Reply, SendError, CONTENT_TYPE, USER_AGENT,
};
pub use queue::LogQueue;
pub use severity::{LogLevel, ParseError, Severity};
pub use time::{current_time_millis, timestamp};
pub use wire::{encode_batch, encode_entries, encode_entry, entry_object, envelope};
