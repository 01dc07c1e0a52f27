//! The handle on an OpenCode server that commands carry: its base URL. The
//! requests themselves are made by the application around this crate.

use vstd::prelude::*;
use crate::text::{chars_of, string_from_chars};

verus! {

/// A client of an OpenCode server, known by its base URL.
#[derive(Debug, PartialEq)]
pub struct OpenCodeClient {
    base_url: String,
}

impl Clone for OpenCodeClient {
    fn clone(&self) -> (r: Self)
        ensures
            r == *self,
    {
        OpenCodeClient { base_url: self.base_url.clone() }
    }
}

impl OpenCodeClient {
    /// The server's base URL.
    pub closed spec fn url(&self) -> Seq<char> {
        self.base_url@
    }

    /// A client of the server at `base_url`.
    pub fn new(base_url: &str) -> (r: Self)
        ensures
            r.url() == base_url@,
    {
        OpenCodeClient { base_url: string_from_chars(chars_of(base_url).as_slice()) }
    }

    /// The server's base URL.
    pub fn base_url(&self) -> (r: &str)
        ensures
            r@ == self.url(),
    {
        self.base_url.as_str()
    }
}

/// Level of a log line sent to the server's log endpoint.
#[derive(Debug, Clone, Copy, PartialEq, Eq)]
pub enum LogLevel {
    Debug,
    Info,
    Warn,
    Error,
}

/// The level's name on the wire, as the log endpoint spells it.
pub open spec fn log_level_name(level: LogLevel) -> Seq<char> {
    match level {
        LogLevel::Debug => "debug"@,
        LogLevel::Info => "info"@,
        LogLevel::Warn => "warn"@,
        LogLevel::Error => "error"@,
    }
}

impl LogLevel {
    /// The level's name on the wire.
    pub fn wire_name(&self) -> (r: &'static str)
        ensures
            r@ == log_level_name(*self),
    {
        match self {
            LogLevel::Debug => "debug",
            LogLevel::Info => "info",
            LogLevel::Warn => "warn",
            LogLevel::Error => "error",
        }
    }
}

} // verus!
