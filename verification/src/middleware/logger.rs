//! Logging middleware.
//!
//! It describes each request before it goes down the chain and each
//! response that comes back, as records for a logger to print.

use crate::message::StatusCode;
use crate::request::Request;
use vstd::prelude::*;

verus! {

/// How serious a record is.
#[derive(Clone, Copy, Debug, PartialEq, Eq, Structural)]
pub enum Level {
    Error,
    Warn,
    Info,
}

/// A value in a record.
#[derive(Debug)]
pub enum LogValue {
    Number(u64),
    Text(String),
}

/// A value in a record, as mathematics.
pub enum LogValueView {
    Number(u64),
    Text(Seq<char>),
}

impl View for LogValue {
    type V = LogValueView;

    open spec fn view(&self) -> LogValueView {
        match *self {
            LogValue::Number(n) => LogValueView::Number(n),
            LogValue::Text(t) => LogValueView::Text(t@),
        }
    }
}

/// A record for the log: a level, a message, and named values.
#[derive(Debug)]
pub struct Record {
    pub level: Level,
    pub message: &'static str,
    pub pairs: Vec<(&'static str, LogValue)>,
}

/// The level at which a response with the given status is logged: errors of
/// the server as errors, errors of the client as warnings, all else as
/// information.
pub open spec fn level_for(status: StatusCode) -> Level {
    if status.server_error() {
        Level::Error
    } else if status.client_error() {
        Level::Warn
    } else {
        Level::Info
    }
}

/// Log each request's duration.
#[derive(Clone, Copy, Debug)]
pub struct Logger {
    _priv: (),
}

/// Create a new instance.
pub fn new() -> Logger {
    Logger::new()
}

impl Logger {
    /// Create a new instance.
    pub fn new() -> Self {
        Logger { _priv: () }
    }

    /// The level at which a response with the given status is logged.
    pub fn level(status: StatusCode) -> (level: Level)
        ensures
            level == level_for(status),
    {
        if status.is_server_error() {
            Level::Error
        } else if status.is_client_error() {
            Level::Warn
        } else {
            Level::Info
        }
    }

    /// The record of a request that is about to go down the chain: its
    /// number `id`, its method and its URL.
    pub fn handle<M>(&self, req: &Request<M>, id: u64) -> (record: Record)
        ensures
            record.level == Level::Info,
            record.message@ == "sending request"@,
            record.pairs.len() == 3,
            record.pairs[0].0@ == "req.id"@,
            record.pairs[0].1@ == LogValueView::Number(id),
            record.pairs[1].0@ == "req.method"@,
            record.pairs[1].1@ == LogValueView::Text(req@.method.name()),
            record.pairs[2].0@ == "req.uri"@,
            record.pairs[2].1@ == LogValueView::Text(req@.url),
    {
        let mut pairs: Vec<(&'static str, LogValue)> = Vec::new();
        pairs.push(("req.id", LogValue::Number(id)));
        pairs.push(("req.method", LogValue::Text(String::from_str(req.method().as_str()))));
        pairs.push(("req.uri", LogValue::Text(String::from_str(req.url().as_str()))));
        Record { level: Level::Info, message: "sending request", pairs }
    }

    /// The record of the response to the request number `id`: its status,
    /// and the time that it took, as the caller has measured and written it.
    pub fn completed(&self, id: u64, status: StatusCode, elapsed: String) -> (record: Record)
        ensures
            record.level == level_for(status),
            record.message@ == "request completed"@,
            record.pairs.len() == 3,
            record.pairs[0].0@ == "req.id"@,
            record.pairs[0].1@ == LogValueView::Number(id),
            record.pairs[1].0@ == "req.status"@,
            record.pairs[1].1@ == LogValueView::Number(status.code as u64),
            record.pairs[2].0@ == "elapsed"@,
            record.pairs[2].1@ == LogValueView::Text(elapsed@),
    {
        let mut pairs: Vec<(&'static str, LogValue)> = Vec::new();
        pairs.push(("req.id", LogValue::Number(id)));
        pairs.push(("req.status", LogValue::Number(status.as_u16() as u64)));
        pairs.push(("elapsed", LogValue::Text(elapsed)));
        Record { level: Logger::level(status), message: "request completed", pairs }
    }
}

impl Default for Logger {
    fn default() -> Self {
        Logger { _priv: () }
    }
}

} // verus!
