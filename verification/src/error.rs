//! Errors of the client and how the application recovers from them.

use vstd::prelude::*;
use crate::text::{push_str, push_decimal, decimal, string_from_chars, chars_of, contains_chars, contains_seq};

verus! {

/// Error of a client operation.
#[derive(Debug, PartialEq)]
pub enum OpenCodeError {
    /// An HTTP request failed; `message` is the transport's description and
    /// the flags say whether it timed out or could not connect.
    Http { message: String, is_timeout: bool, is_connect: bool },
    /// A body could not be (de)serialized.
    Serialization(String),
    /// The server answered with an error status.
    Api { status: u16, message: String },
    Auth(String),
    SessionNotFound { session_id: String },
    MessageNotFound { session_id: String, message_id: String },
    EventStream(String),
    Configuration(String),
    InvalidRequest(String),
    Timeout(String),
    ServerNotFound,
    ConnectionTimeout,
    ProcessDetectionFailed,
    SessionPersistence(String),
    ServerStartFailed(String),
    Unexpected(String),
}

/// Cloning an error: transport and serialization errors become `Unexpected`
/// errors carrying their description; the others are copied.
impl Clone for OpenCodeError {
    fn clone(&self) -> (r: Self)
        ensures
            match *self {
                OpenCodeError::Http { message, .. } => r matches OpenCodeError::Unexpected(m) && m@
                    == "HTTP error: "@ + message@,
                OpenCodeError::Serialization(message) => r matches OpenCodeError::Unexpected(m)
                    && m@ == "Serialization error: "@ + message@,
                _ => r == *self,
            },
    {
        match self {
            OpenCodeError::Http { message, .. } => {
                let mut t: Vec<char> = Vec::new();
                push_str(&mut t, "HTTP error: ");
                push_str(&mut t, message.as_str());
                OpenCodeError::Unexpected(string_from_chars(t.as_slice()))
            },
            OpenCodeError::Serialization(message) => {
                let mut t: Vec<char> = Vec::new();
                push_str(&mut t, "Serialization error: ");
                push_str(&mut t, message.as_str());
                OpenCodeError::Unexpected(string_from_chars(t.as_slice()))
            },
            OpenCodeError::Api { status, message } => OpenCodeError::Api {
                status: *status,
                message: message.clone(),
            },
            OpenCodeError::Auth(m) => OpenCodeError::Auth(m.clone()),
            OpenCodeError::SessionNotFound { session_id } => OpenCodeError::SessionNotFound {
                session_id: session_id.clone(),
            },
            OpenCodeError::MessageNotFound { session_id, message_id } =>
                OpenCodeError::MessageNotFound {
                session_id: session_id.clone(),
                message_id: message_id.clone(),
            },
            OpenCodeError::EventStream(m) => OpenCodeError::EventStream(m.clone()),
            OpenCodeError::Configuration(m) => OpenCodeError::Configuration(m.clone()),
            OpenCodeError::InvalidRequest(m) => OpenCodeError::InvalidRequest(m.clone()),
            OpenCodeError::Timeout(m) => OpenCodeError::Timeout(m.clone()),
            OpenCodeError::ServerNotFound => OpenCodeError::ServerNotFound,
            OpenCodeError::ConnectionTimeout => OpenCodeError::ConnectionTimeout,
            OpenCodeError::ProcessDetectionFailed => OpenCodeError::ProcessDetectionFailed,
            OpenCodeError::SessionPersistence(m) => OpenCodeError::SessionPersistence(m.clone()),
            OpenCodeError::ServerStartFailed(m) => OpenCodeError::ServerStartFailed(m.clone()),
            OpenCodeError::Unexpected(m) => OpenCodeError::Unexpected(m.clone()),
        }
    }
}

/// The text an error displays.
pub open spec fn error_text(e: OpenCodeError) -> Seq<char> {
    match e {
        OpenCodeError::Http { message, .. } => "HTTP request failed: "@ + message@,
        OpenCodeError::Serialization(m) => "Serialization error: "@ + m@,
        OpenCodeError::Api { status, message } => "API error: "@ + decimal(status as nat)
            + " - "@ + message@,
        OpenCodeError::Auth(m) => "Authentication error: "@ + m@,
        OpenCodeError::SessionNotFound { session_id } => "Session not found: "@ + session_id@,
        OpenCodeError::MessageNotFound { session_id, message_id } => "Message not found: "@
            + message_id@ + " in session "@ + session_id@,
        OpenCodeError::EventStream(m) => "Event stream error: "@ + m@,
        OpenCodeError::Configuration(m) => "Configuration error: "@ + m@,
        OpenCodeError::InvalidRequest(m) => "Invalid request: "@ + m@,
        OpenCodeError::Timeout(m) => "Request timeout: "@ + m@,
        OpenCodeError::ServerNotFound => "OpenCode server not found - check if server is running"@,
        OpenCodeError::ConnectionTimeout => "Connection timeout"@,
        OpenCodeError::ProcessDetectionFailed => "Failed to detect running OpenCode processes"@,
        OpenCodeError::SessionPersistence(m) => "Session persistence error: "@ + m@,
        OpenCodeError::ServerStartFailed(m) => "Failed to start OpenCode server: "@ + m@,
        OpenCodeError::Unexpected(m) => "Unexpected error: "@ + m@,
    }
}

/// Whether retrying may succeed.
pub open spec fn retryable_spec(e: OpenCodeError) -> bool {
    match e {
        OpenCodeError::Http { is_timeout, is_connect, .. } => is_timeout || is_connect,
        OpenCodeError::Api { status, .. } => status >= 500,
        OpenCodeError::Timeout(_) => true,
        OpenCodeError::EventStream(_) => true,
        OpenCodeError::ConnectionTimeout => true,
        OpenCodeError::ProcessDetectionFailed => true,
        _ => false,
    }
}

/// Whether the request was at fault (4xx and the like).
pub open spec fn client_error_spec(e: OpenCodeError) -> bool {
    match e {
        OpenCodeError::Api { status, .. } => 400 <= status && status < 500,
        OpenCodeError::Auth(_) => true,
        OpenCodeError::SessionNotFound { .. } => true,
        OpenCodeError::MessageNotFound { .. } => true,
        OpenCodeError::InvalidRequest(_) => true,
        _ => false,
    }
}

/// Whether the server was at fault (5xx).
pub open spec fn server_error_spec(e: OpenCodeError) -> bool {
    match e {
        OpenCodeError::Api { status, .. } => 500 <= status && status < 600,
        _ => false,
    }
}

fn owned(s: &str) -> (r: String)
    ensures
        r@ == s@,
{
    s.to_string()
}

impl OpenCodeError {
    /// An API error with the given status and message.
    pub fn api_error(status: u16, message: &str) -> (e: Self)
        ensures
            e matches OpenCodeError::Api { status: st, message: m } && st == status && m@
                == message@,
    {
        OpenCodeError::Api { status, message: owned(message) }
    }

    /// An authentication error.
    pub fn auth_error(message: &str) -> (e: Self)
        ensures
            e matches OpenCodeError::Auth(m) && m@ == message@,
    {
        OpenCodeError::Auth(owned(message))
    }

    /// A session-not-found error.
    pub fn session_not_found(session_id: &str) -> (e: Self)
        ensures
            e matches OpenCodeError::SessionNotFound { session_id: s } && s@ == session_id@,
    {
        OpenCodeError::SessionNotFound { session_id: owned(session_id) }
    }

    /// A message-not-found error.
    pub fn message_not_found(session_id: &str, message_id: &str) -> (e: Self)
        ensures
            e matches OpenCodeError::MessageNotFound { session_id: s, message_id: m } && s@
                == session_id@ && m@ == message_id@,
    {
        OpenCodeError::MessageNotFound { session_id: owned(session_id), message_id: owned(message_id) }
    }

    /// An event stream error.
    pub fn event_stream_error(message: &str) -> (e: Self)
        ensures
            e matches OpenCodeError::EventStream(m) && m@ == message@,
    {
        OpenCodeError::EventStream(owned(message))
    }

    /// A configuration error.
    pub fn configuration_error(message: &str) -> (e: Self)
        ensures
            e matches OpenCodeError::Configuration(m) && m@ == message@,
    {
        OpenCodeError::Configuration(owned(message))
    }

    /// An invalid-request error.
    pub fn invalid_request(message: &str) -> (e: Self)
        ensures
            e matches OpenCodeError::InvalidRequest(m) && m@ == message@,
    {
        OpenCodeError::InvalidRequest(owned(message))
    }

    /// A timeout error.
    pub fn timeout_error(message: &str) -> (e: Self)
        ensures
            e matches OpenCodeError::Timeout(m) && m@ == message@,
    {
        OpenCodeError::Timeout(owned(message))
    }

    /// A session persistence error.
    pub fn session_persistence_error(message: &str) -> (e: Self)
        ensures
            e matches OpenCodeError::SessionPersistence(m) && m@ == message@,
    {
        OpenCodeError::SessionPersistence(owned(message))
    }

    /// A server-start error.
    pub fn server_start_failed(message: &str) -> (e: Self)
        ensures
            e matches OpenCodeError::ServerStartFailed(m) && m@ == message@,
    {
        OpenCodeError::ServerStartFailed(owned(message))
    }

    /// An error for a response with status `status` and body `content`.
    pub fn from_response(status: u16, content: String) -> (e: Self)
        ensures
            e == (OpenCodeError::Api { status: status, message: content }),
    {
        OpenCodeError::Api { status, message: content }
    }

    /// Whether retrying may succeed.
    pub fn is_retryable(&self) -> (b: bool)
        ensures
            b == retryable_spec(*self),
    {
        match self {
            OpenCodeError::Http { is_timeout, is_connect, .. } => *is_timeout || *is_connect,
            OpenCodeError::Api { status, .. } => *status >= 500,
            OpenCodeError::Timeout(_) => true,
            OpenCodeError::EventStream(_) => true,
            OpenCodeError::ConnectionTimeout => true,
            OpenCodeError::ProcessDetectionFailed => true,
            OpenCodeError::ServerStartFailed(_) => false,
            _ => false,
        }
    }

    /// Whether this is a client error (4xx and the like).
    pub fn is_client_error(&self) -> (b: bool)
        ensures
            b == client_error_spec(*self),
    {
        match self {
            OpenCodeError::Api { status, .. } => *status >= 400 && *status < 500,
            OpenCodeError::Auth(_) => true,
            OpenCodeError::SessionNotFound { .. } => true,
            OpenCodeError::MessageNotFound { .. } => true,
            OpenCodeError::InvalidRequest(_) => true,
            _ => false,
        }
    }

    /// Whether this is a server error (5xx).
    pub fn is_server_error(&self) -> (b: bool)
        ensures
            b == server_error_spec(*self),
    {
        match self {
            OpenCodeError::Api { status, .. } => *status >= 500 && *status < 600,
            _ => false,
        }
    }

    /// The text the error displays.
    pub fn message(&self) -> (s: String)
        ensures
            s@ == error_text(*self),
    {
        let mut t: Vec<char> = Vec::new();
        match self {
            OpenCodeError::Http { message, .. } => {
                push_str(&mut t, "HTTP request failed: ");
                push_str(&mut t, message.as_str());
            },
            OpenCodeError::Serialization(m) => {
                push_str(&mut t, "Serialization error: ");
                push_str(&mut t, m.as_str());
            },
            OpenCodeError::Api { status, message } => {
                push_str(&mut t, "API error: ");
                push_decimal(&mut t, *status as u64);
                push_str(&mut t, " - ");
                push_str(&mut t, message.as_str());
            },
            OpenCodeError::Auth(m) => {
                push_str(&mut t, "Authentication error: ");
                push_str(&mut t, m.as_str());
            },
            OpenCodeError::SessionNotFound { session_id } => {
                push_str(&mut t, "Session not found: ");
                push_str(&mut t, session_id.as_str());
            },
            OpenCodeError::MessageNotFound { session_id, message_id } => {
                push_str(&mut t, "Message not found: ");
                push_str(&mut t, message_id.as_str());
                push_str(&mut t, " in session ");
                push_str(&mut t, session_id.as_str());
            },
            OpenCodeError::EventStream(m) => {
                push_str(&mut t, "Event stream error: ");
                push_str(&mut t, m.as_str());
            },
            OpenCodeError::Configuration(m) => {
                push_str(&mut t, "Configuration error: ");
                push_str(&mut t, m.as_str());
            },
            OpenCodeError::InvalidRequest(m) => {
                push_str(&mut t, "Invalid request: ");
                push_str(&mut t, m.as_str());
            },
            OpenCodeError::Timeout(m) => {
                push_str(&mut t, "Request timeout: ");
                push_str(&mut t, m.as_str());
            },
            OpenCodeError::ServerNotFound => {
                push_str(&mut t, "OpenCode server not found - check if server is running");
            },
            OpenCodeError::ConnectionTimeout => {
                push_str(&mut t, "Connection timeout");
            },
            OpenCodeError::ProcessDetectionFailed => {
                push_str(&mut t, "Failed to detect running OpenCode processes");
            },
            OpenCodeError::SessionPersistence(m) => {
                push_str(&mut t, "Session persistence error: ");
                push_str(&mut t, m.as_str());
            },
            OpenCodeError::ServerStartFailed(m) => {
                push_str(&mut t, "Failed to start OpenCode server: ");
                push_str(&mut t, m.as_str());
            },
            OpenCodeError::Unexpected(m) => {
                push_str(&mut t, "Unexpected error: ");
                push_str(&mut t, m.as_str());
            },
        }
        assert(t@ =~= error_text(*self));
        string_from_chars(t.as_slice())
    }
}

/// A server error is never a client error, and every server error can be retried.
pub proof fn law_server_errors_are_retryable_not_client(e: OpenCodeError)
    ensures
        server_error_spec(e) ==> retryable_spec(e) && !client_error_spec(e),
{
}

// ---------------------------------------------------------------------------
// Recovery
// ---------------------------------------------------------------------------

/// How the application reacts to an error.
#[derive(Debug, Clone, PartialEq, Eq)]
pub enum RecoveryStrategy {
    /// Retry (network issues, temporary failures).
    Retry,
    /// Restart the terminal (terminal corruption).
    RestartTerminal,
    /// Exit gracefully.
    Exit,
    /// Log and carry on.
    Ignore,
}

/// Kind of an I/O error, as far as recovery tells them apart.
#[derive(Debug, Clone, Copy, PartialEq, Eq)]
pub enum IoErrorKind {
    TimedOut,
    Interrupted,
    WouldBlock,
    BrokenPipe,
    Other,
}

/// What an application error is, for recovery.
#[derive(Debug, Clone, PartialEq)]
pub enum ErrorSource {
    /// A client error.
    Sdk(OpenCodeError),
    /// An I/O error.
    Io(IoErrorKind),
    /// A JSON (de)serialization error.
    Json,
    /// A report made for a known situation, which fixes its recovery.
    Context(ReportKind),
    /// Anything else, known only by its text.
    Other,
}

/// The situations that reports with context are made for.
#[derive(Debug, Clone, Copy, PartialEq, Eq, Structural)]
pub enum ReportKind {
    /// The terminal could not be set up: restart it.
    TerminalInit,
    /// The configuration is wrong: exit.
    Configuration,
    /// A background task failed: log it and go on.
    AsyncTask,
    /// Processing an event failed: log it and go on.
    EventProcessing,
}

/// The recovery that a report's kind calls for.
pub open spec fn kind_strategy(k: ReportKind) -> RecoveryStrategy {
    match k {
        ReportKind::TerminalInit => RecoveryStrategy::RestartTerminal,
        ReportKind::Configuration => RecoveryStrategy::Exit,
        ReportKind::AsyncTask => RecoveryStrategy::Ignore,
        ReportKind::EventProcessing => RecoveryStrategy::Ignore,
    }
}

/// An application error: what it is and the text it displays.
#[derive(Debug, Clone, PartialEq)]
pub struct ClassifiedError {
    pub source: ErrorSource,
    pub message: String,
}

/// `str::to_lowercase` of a text.
pub uninterp spec fn lowercase(s: Seq<char>) -> Seq<char>;

/// The text in lower case: `str::to_lowercase`, which maps each character
/// to its Unicode lowercase mapping; the result is named, not spelled out.
#[verifier::external_body]
fn to_lowercase(s: &str) -> (r: String)
    ensures
        r@ == lowercase(s@),
{
    s.to_lowercase()
}

/// The strategy for an error of the given text: by keywords in its lowercase text.
pub open spec fn strategy_for_text(lower: Seq<char>) -> RecoveryStrategy {
    if contains_seq(lower, "terminal"@) {
        RecoveryStrategy::RestartTerminal
    } else if contains_seq(lower, "logger"@) || contains_seq(lower, "logging"@) {
        RecoveryStrategy::Ignore
    } else if contains_seq(lower, "configuration"@) || contains_seq(lower, "config"@) {
        RecoveryStrategy::Exit
    } else if contains_seq(lower, "async task"@) || contains_seq(lower, "event processing"@) {
        RecoveryStrategy::Ignore
    } else {
        RecoveryStrategy::Exit
    }
}

/// The strategy for an application error.
pub open spec fn strategy_spec(e: ClassifiedError) -> RecoveryStrategy {
    match e.source {
        ErrorSource::Sdk(s) => if retryable_spec(s) {
            RecoveryStrategy::Retry
        } else {
            RecoveryStrategy::Exit
        },
        ErrorSource::Io(k) => match k {
            IoErrorKind::TimedOut | IoErrorKind::Interrupted | IoErrorKind::WouldBlock =>
                RecoveryStrategy::Retry,
            _ => RecoveryStrategy::Exit,
        },
        ErrorSource::Json => RecoveryStrategy::Exit,
        ErrorSource::Context(k) => kind_strategy(k),
        ErrorSource::Other => strategy_for_text(lowercase(e.message@)),
    }
}

fn str_has(s: &[char], pat: &str) -> (b: bool)
    ensures
        b == contains_seq(s@, pat@),
{
    let p = chars_of(pat);
    contains_chars(s, p.as_slice())
}

/// Recovery strategy of an error, and the predicates derived from it.
pub trait RecoveryExt {
    /// The strategy for this error.
    fn recovery_strategy(&self) -> RecoveryStrategy;

    /// Whether the error should end the application.
    fn is_fatal(&self) -> (b: bool)
        ensures
            b == (self.recovery_strategy_spec() == RecoveryStrategy::Exit),
    ;

    /// Whether the operation can be retried.
    fn is_retryable(&self) -> (b: bool)
        ensures
            b == (self.recovery_strategy_spec() == RecoveryStrategy::Retry),
    ;

    /// The strategy, as a value.
    spec fn recovery_strategy_spec(&self) -> RecoveryStrategy;
}

impl RecoveryExt for ClassifiedError {
    open spec fn recovery_strategy_spec(&self) -> RecoveryStrategy {
        strategy_spec(*self)
    }

    fn recovery_strategy(&self) -> (r: RecoveryStrategy)
        ensures
            r == strategy_spec(*self),
    {
        match &self.source {
            ErrorSource::Sdk(s) => {
                if s.is_retryable() {
                    RecoveryStrategy::Retry
                } else if s.is_client_error() {
                    RecoveryStrategy::Exit
                } else {
                    RecoveryStrategy::Exit
                }
            },
            ErrorSource::Io(k) => match k {
                IoErrorKind::TimedOut | IoErrorKind::Interrupted | IoErrorKind::WouldBlock =>
                    RecoveryStrategy::Retry,
                IoErrorKind::BrokenPipe => RecoveryStrategy::Exit,
                _ => RecoveryStrategy::Exit,
            },
            ErrorSource::Json => RecoveryStrategy::Exit,
            ErrorSource::Context(k) => match k {
                ReportKind::TerminalInit => RecoveryStrategy::RestartTerminal,
                ReportKind::Configuration => RecoveryStrategy::Exit,
                ReportKind::AsyncTask => RecoveryStrategy::Ignore,
                ReportKind::EventProcessing => RecoveryStrategy::Ignore,
            },
            ErrorSource::Other => {
                let lower_s = to_lowercase(self.message.as_str());
                let lower = chars_of(lower_s.as_str());
                let l = lower.as_slice();
                if str_has(l, "terminal") {
                    RecoveryStrategy::RestartTerminal
                } else if str_has(l, "logger") || str_has(l, "logging") {
                    RecoveryStrategy::Ignore
                } else if str_has(l, "configuration") || str_has(l, "config") {
                    RecoveryStrategy::Exit
                } else if str_has(l, "async task") || str_has(l, "event processing") {
                    RecoveryStrategy::Ignore
                } else {
                    RecoveryStrategy::Exit
                }
            },
        }
    }

    fn is_fatal(&self) -> (b: bool) {
        match self.recovery_strategy() {
            RecoveryStrategy::Exit => true,
            _ => false,
        }
    }

    fn is_retryable(&self) -> (b: bool) {
        match self.recovery_strategy() {
            RecoveryStrategy::Retry => true,
            _ => false,
        }
    }
}


// ---------------------------------------------------------------------------
// Reports with context
// ---------------------------------------------------------------------------

/// One titled section of context attached to an error report.
#[derive(Debug, PartialEq)]
pub struct ReportSection {
    pub header: String,
    pub body: String,
}

/// An error together with the sections of context shown below it.
#[derive(Debug)]
pub struct ErrorReport {
    pub error: ClassifiedError,
    pub sections: Vec<ReportSection>,
}

/// The sections of a report as (header, body) texts.
pub open spec fn sections_view(v: Seq<ReportSection>) -> Seq<(Seq<char>, Seq<char>)> {
    v.map_values(|s: ReportSection| (s.header@, s.body@))
}

/// `true` or `false`, as a flag is printed.
pub open spec fn bool_text(b: bool) -> Seq<char> {
    if b { "true"@ } else { "false"@ }
}

fn section(header: &str, body: &str) -> (r: ReportSection)
    ensures
        r.header@ == header@,
        r.body@ == body@,
{
    ReportSection { header: owned(header), body: owned(body) }
}

fn labelled_flag(label: &str, flag: bool) -> (r: String)
    ensures
        r@ == label@ + bool_text(flag),
{
    let mut t: Vec<char> = Vec::new();
    push_str(&mut t, label);
    if flag {
        push_str(&mut t, "true");
    } else {
        push_str(&mut t, "false");
    }
    string_from_chars(t.as_slice())
}

/// A report of an error known by its text, with the two given sections.
fn contextual(
    report_kind: ReportKind,
    message: &str,
    kind: &str,
    advice_header: &str,
    advice: &str,
) -> (r: ErrorReport)
    ensures
        r.error.source == ErrorSource::Context(report_kind),
        r.error.message@ == message@,
        sections_view(r.sections@) == seq![("Error Type:"@, kind@), (advice_header@, advice@)],
{
    let mut sections: Vec<ReportSection> = Vec::new();
    sections.push(section("Error Type:", kind));
    sections.push(section(advice_header, advice));
    let r = ErrorReport {
        error: ClassifiedError { source: ErrorSource::Context(report_kind), message: owned(message) },
        sections,
    };
    assert(sections_view(r.sections@) =~= seq![("Error Type:"@, kind@), (advice_header@, advice@)]);
    r
}

/// A terminal initialization error, with advice to restart the terminal.
pub fn terminal_init(message: &str) -> (r: ErrorReport)
    ensures
        r.error.source == ErrorSource::Context(ReportKind::TerminalInit),
        r.error.message@ == message@,
        sections_view(r.sections@) == seq![
            ("Error Type:"@, "Terminal initialization failed"@),
            ("Suggestion:"@, "Try restarting the terminal or checking terminal capabilities"@),
        ],
{
    contextual(
        ReportKind::TerminalInit,
        message,
        "Terminal initialization failed",
        "Suggestion:",
        "Try restarting the terminal or checking terminal capabilities",
    )
}

/// A configuration error, with advice to check the configuration.
pub fn configuration(message: &str) -> (r: ErrorReport)
    ensures
        r.error.source == ErrorSource::Context(ReportKind::Configuration),
        r.error.message@ == message@,
        sections_view(r.sections@) == seq![
            ("Error Type:"@, "Configuration error"@),
            ("Suggestion:"@, "Check your configuration file and environment variables"@),
        ],
{
    contextual(
        ReportKind::Configuration,
        message,
        "Configuration error",
        "Suggestion:",
        "Check your configuration file and environment variables",
    )
}

/// A failed background task; the application goes on.
pub fn async_task(message: &str) -> (r: ErrorReport)
    ensures
        r.error.source == ErrorSource::Context(ReportKind::AsyncTask),
        r.error.message@ == message@,
        sections_view(r.sections@) == seq![
            ("Error Type:"@, "Async task failed"@),
            ("Recovery:"@, "This error will be logged but the application will continue"@),
        ],
{
    contextual(
        ReportKind::AsyncTask,
        message,
        "Async task failed",
        "Recovery:",
        "This error will be logged but the application will continue",
    )
}

/// A failure while processing an event; the application goes on.
pub fn event_processing(message: &str) -> (r: ErrorReport)
    ensures
        r.error.source == ErrorSource::Context(ReportKind::EventProcessing),
        r.error.message@ == message@,
        sections_view(r.sections@) == seq![
            ("Error Type:"@, "Event processing failed"@),
            ("Recovery:"@, "This error will be logged but the application will continue"@),
        ],
{
    contextual(
        ReportKind::EventProcessing,
        message,
        "Event processing failed",
        "Recovery:",
        "This error will be logged but the application will continue",
    )
}

impl ErrorReport {
    /// A report of a client error, with no sections yet.
    pub fn from_sdk(e: OpenCodeError) -> (r: ErrorReport)
        ensures
            r.error.source == ErrorSource::Sdk(e),
            r.error.message@ == error_text(e),
            r.sections@.len() == 0,
    {
        let message = e.message();
        ErrorReport {
            error: ClassifiedError { source: ErrorSource::Sdk(e), message },
            sections: Vec::new(),
        }
    }

    /// The report with the terminal's state appended as two sections.
    pub fn with_terminal_state(self, raw_mode: bool, alternate_screen: bool) -> (r: ErrorReport)
        ensures
            r.error == self.error,
            sections_view(r.sections@) == sections_view(self.sections@) + seq![
                ("Terminal State:"@, "Raw mode: "@ + bool_text(raw_mode)),
                ("Screen Mode:"@, "Alternate screen: "@ + bool_text(alternate_screen)),
            ],
    {
        let ErrorReport { error, sections } = self;
        let mut sections = sections;
        let ghost before = sections@;
        sections.push(
            ReportSection { header: owned("Terminal State:"), body: labelled_flag("Raw mode: ", raw_mode) },
        );
        sections.push(
            ReportSection {
                header: owned("Screen Mode:"),
                body: labelled_flag("Alternate screen: ", alternate_screen),
            },
        );
        let r = ErrorReport { error, sections };
        assert(sections_view(r.sections@) =~= sections_view(before) + seq![
            ("Terminal State:"@, "Raw mode: "@ + bool_text(raw_mode)),
            ("Screen Mode:"@, "Alternate screen: "@ + bool_text(alternate_screen)),
        ]);
        r
    }

    /// The report with the SDK operation, and the endpoint where there is
    /// one, appended as sections.
    pub fn with_operation(self, operation: &str, endpoint: Option<&str>) -> (r: ErrorReport)
        ensures
            r.error == self.error,
            sections_view(r.sections@) == sections_view(self.sections@) + match endpoint {
                Some(ep) => seq![("SDK Operation:"@, operation@), ("Endpoint:"@, ep@)],
                None => seq![("SDK Operation:"@, operation@)],
            },
    {
        let ErrorReport { error, sections } = self;
        let mut sections = sections;
        let ghost before = sections@;
        sections.push(section("SDK Operation:", operation));
        match endpoint {
            Some(ep) => {
                sections.push(section("Endpoint:", ep));
            },
            None => {},
        }
        let r = ErrorReport { error, sections };
        assert(sections_view(r.sections@) =~= sections_view(before) + match endpoint {
            Some(ep) => seq![("SDK Operation:"@, operation@), ("Endpoint:"@, ep@)],
            None => seq![("SDK Operation:"@, operation@)],
        });
        r
    }
}

/// Adds the terminal's state to an error.
pub trait TerminalErrorExt: Sized {
    /// The error as a report, with whether raw mode and the alternate
    /// screen were on.
    fn with_terminal_context(self, raw_mode: bool, alternate_screen: bool) -> ErrorReport;
}

/// Adds the SDK operation, and its endpoint, to an error.
pub trait SdkErrorExt: Sized {
    /// The error as a report, with the operation and endpoint.
    fn with_sdk_context(self, operation: &str, endpoint: Option<&str>) -> ErrorReport;
}

impl TerminalErrorExt for ErrorReport {
    fn with_terminal_context(self, raw_mode: bool, alternate_screen: bool) -> (r: ErrorReport)
        ensures
            r.error == self.error,
            sections_view(r.sections@) == sections_view(self.sections@) + seq![
                ("Terminal State:"@, "Raw mode: "@ + bool_text(raw_mode)),
                ("Screen Mode:"@, "Alternate screen: "@ + bool_text(alternate_screen)),
            ],
    {
        self.with_terminal_state(raw_mode, alternate_screen)
    }
}

impl TerminalErrorExt for OpenCodeError {
    fn with_terminal_context(self, raw_mode: bool, alternate_screen: bool) -> (r: ErrorReport)
        ensures
            r.error.source == ErrorSource::Sdk(self),
            r.error.message@ == error_text(self),
            sections_view(r.sections@) == seq![
                ("Terminal State:"@, "Raw mode: "@ + bool_text(raw_mode)),
                ("Screen Mode:"@, "Alternate screen: "@ + bool_text(alternate_screen)),
            ],
    {
        let r = ErrorReport::from_sdk(self);
        assert(sections_view(r.sections@) =~= Seq::empty());
        r.with_terminal_state(raw_mode, alternate_screen)
    }
}

impl SdkErrorExt for ErrorReport {
    fn with_sdk_context(self, operation: &str, endpoint: Option<&str>) -> (r: ErrorReport)
        ensures
            r.error == self.error,
            sections_view(r.sections@) == sections_view(self.sections@) + match endpoint {
                Some(ep) => seq![("SDK Operation:"@, operation@), ("Endpoint:"@, ep@)],
                None => seq![("SDK Operation:"@, operation@)],
            },
    {
        self.with_operation(operation, endpoint)
    }
}

impl SdkErrorExt for OpenCodeError {
    fn with_sdk_context(self, operation: &str, endpoint: Option<&str>) -> (r: ErrorReport)
        ensures
            r.error.source == ErrorSource::Sdk(self),
            r.error.message@ == error_text(self),
            sections_view(r.sections@) == match endpoint {
                Some(ep) => seq![("SDK Operation:"@, operation@), ("Endpoint:"@, ep@)],
                None => seq![("SDK Operation:"@, operation@)],
            },
    {
        let r = ErrorReport::from_sdk(self);
        assert(sections_view(r.sections@) =~= Seq::empty());
        r.with_operation(operation, endpoint)
    }
}

impl RecoveryExt for ErrorReport {
    open spec fn recovery_strategy_spec(&self) -> RecoveryStrategy {
        strategy_spec(self.error)
    }

    fn recovery_strategy(&self) -> (r: RecoveryStrategy)
        ensures
            r == strategy_spec(self.error),
    {
        self.error.recovery_strategy()
    }

    fn is_fatal(&self) -> (b: bool) {
        self.error.is_fatal()
    }

    fn is_retryable(&self) -> (b: bool) {
        self.error.is_retryable()
    }
}

/// A report made for a known situation recovers as that situation calls
/// for, whatever its text: a failed terminal setup restarts the terminal, a
/// failed background task or event is logged and the application goes on.
pub proof fn law_reports_recover_by_kind(e: ClassifiedError, k: ReportKind)
    requires
        e.source == ErrorSource::Context(k),
    ensures
        strategy_spec(e) == kind_strategy(k),
        k == ReportKind::TerminalInit ==> strategy_spec(e) == RecoveryStrategy::RestartTerminal,
        (k == ReportKind::AsyncTask || k == ReportKind::EventProcessing) ==> strategy_spec(e)
            == RecoveryStrategy::Ignore,
{
}

} // verus!
