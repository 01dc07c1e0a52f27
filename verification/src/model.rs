//! The application model: what the client shows and knows, with the
//! queries and small state changes the update function builds on.

use vstd::prelude::*;
use crate::client::OpenCodeClient;
use crate::ids::{IdClock, IdPrefix, current_time_millis, is_id_shaped};
use crate::message_log::{MessageLog, log_lines, sat_sub};
use crate::message_state::{
    ContainerView, MessageContainer, MessageState, stdout_texts, unprinted,
};
use crate::models::{AgentConfig, ConfigAgent, File, Session};
use crate::renderer::VerbosityLevel;
use crate::selectors::{FileSelector, SessionSelector};
use crate::text::{chars_of, string_from_chars};
use crate::text_input::{TextInputArea, TEXT_INPUT_AREA_MIN_HEIGHT};

verus! {

/// Keys whose second press within the repeat window does something else.
#[derive(Debug, Clone, Copy, PartialEq, Eq, Structural)]
pub enum RepeatShortcutKey {
    CtrlC,
    CtrlD,
    Esc,
    Leader,
}

/// What a timeout is for.
#[derive(Debug, PartialEq)]
pub enum TimeoutType {
    RepeatShortcut(RepeatShortcutKey),
    /// Debounced file search, with its query.
    DebounceFindFiles(String),
}

impl Clone for TimeoutType {
    fn clone(&self) -> (r: Self)
        ensures
            r == *self,
    {
        match self {
            TimeoutType::RepeatShortcut(k) => TimeoutType::RepeatShortcut(*k),
            TimeoutType::DebounceFindFiles(q) => TimeoutType::DebounceFindFiles(q.clone()),
        }
    }
}

/// Two timeout kinds are the same: the same key, or the same query text.
pub open spec fn same_timeout_type(a: TimeoutType, b: TimeoutType) -> bool {
    match (a, b) {
        (TimeoutType::RepeatShortcut(x), TimeoutType::RepeatShortcut(y)) => x == y,
        (TimeoutType::DebounceFindFiles(x), TimeoutType::DebounceFindFiles(y)) => x@ == y@,
        _ => false,
    }
}

/// Whether setting a timeout of kind `new` replaces one of kind `old`: any
/// debounce replaces any debounce, other kinds replace their equals.
pub open spec fn replaces(new: TimeoutType, old: TimeoutType) -> bool {
    match new {
        TimeoutType::DebounceFindFiles(_) => old is DebounceFindFiles,
        _ => same_timeout_type(new, old),
    }
}

/// A running timeout; times are milliseconds since the Unix epoch.
#[derive(Debug, PartialEq)]
pub struct Timeout {
    pub timeout_type: TimeoutType,
    pub started_at_ms: u64,
    pub duration_ms: u64,
}

/// The first press of a repeatable shortcut.
#[derive(Debug, Clone, Copy, PartialEq, Eq, Structural)]
pub struct RepeatShortcutTimeout {
    pub key: RepeatShortcutKey,
    pub started_at_ms: u64,
}

/// A session that will be created with the first message.
#[derive(Debug, PartialEq)]
pub struct PendingSessionInfo {
    pub temp_id: String,
    pub created_at_ms: u64,
}

impl Clone for PendingSessionInfo {
    fn clone(&self) -> (r: Self)
        ensures
            r == *self,
    {
        PendingSessionInfo { temp_id: self.temp_id.clone(), created_at_ms: self.created_at_ms }
    }
}

/// A file attached to the next message.
#[derive(Debug, PartialEq)]
pub struct AttachedFile {
    pub file: File,
    pub part_id: String,
    pub display_name: String,
}

/// The session the client works in.
#[derive(Debug, PartialEq)]
pub enum SessionState {
    /// No session chosen.
    Empty,
    Pending(PendingSessionInfo),
    Creating(PendingSessionInfo),
    Ready(Session),
}

/// The application's subscription to the server's event stream, by number.
#[derive(Debug, Clone, Copy, PartialEq, Eq, Structural)]
pub struct EventStreamHandle {
    pub id: u64,
}

/// State of the server event stream.
#[derive(Debug, PartialEq)]
pub enum EventStreamState {
    Disconnected,
    Connecting,
    Connected(EventStreamHandle),
    Reconnecting { attempt: u32, last_error: String },
    Failed(String),
}

/// Settings fixed when the terminal starts.
#[derive(Debug, Clone, Copy, PartialEq, Eq, Structural)]
pub struct ModelInit {
    init_inline_mode: bool,
}

impl ModelInit {
    /// The settings that `ModelInit::new(inline_mode)` builds.
    pub closed spec fn built_from(inline_mode: bool) -> ModelInit {
        ModelInit { init_inline_mode: inline_mode }
    }

    /// Whether the client draws inline below the shell prompt.
    pub closed spec fn inline_view(&self) -> bool {
        self.init_inline_mode
    }

    /// Whether the client draws inline below the shell prompt.
    pub fn inline_mode(&self) -> (b: bool)
        ensures
            b == self.inline_view(),
    {
        self.init_inline_mode
    }

    /// Settings for inline or full-screen drawing.
    pub fn new(inline_mode: bool) -> (r: ModelInit)
        ensures
            r.inline_view() == inline_mode,
            r == ModelInit::built_from(inline_mode),
    {
        ModelInit { init_inline_mode: inline_mode }
    }
}

/// User preferences.
#[derive(Debug, Clone, Copy, PartialEq, Eq, Structural)]
pub struct UserConfig {
    pub ui_block_is_rounded: bool,
    pub ui_status_is_bottom: bool,
    pub ui_status_use_labels: bool,
    pub height: u16,
    pub keys_shortcut_timeout_ms: u16,
}

/// Which screen or pop-up has the input.
#[derive(Debug, PartialEq)]
pub enum AppModalState {
    /// The main screen, no pop-up.
    NoModal,
    Connecting(ConnectionStatus),
    ModalHelp,
    ModalFileSelect,
    ModalSessionSelect,
    Quit,
}

/// Connection to the server.
#[derive(Debug, PartialEq)]
pub enum ConnectionStatus {
    Disconnected,
    Connecting,
    Connected,
    InitializingSession,
    SessionReady,
    Error(String),
}

impl Clone for ConnectionStatus {
    fn clone(&self) -> (r: Self)
        ensures
            r == *self,
    {
        match self {
            ConnectionStatus::Disconnected => ConnectionStatus::Disconnected,
            ConnectionStatus::Connecting => ConnectionStatus::Connecting,
            ConnectionStatus::Connected => ConnectionStatus::Connected,
            ConnectionStatus::InitializingSession => ConnectionStatus::InitializingSession,
            ConnectionStatus::SessionReady => ConnectionStatus::SessionReady,
            ConnectionStatus::Error(e) => ConnectionStatus::Error(e.clone()),
        }
    }
}

impl Clone for AppModalState {
    fn clone(&self) -> (r: Self)
        ensures
            r == *self,
    {
        match self {
            AppModalState::NoModal => AppModalState::NoModal,
            AppModalState::Connecting(c) => AppModalState::Connecting(c.clone()),
            AppModalState::ModalHelp => AppModalState::ModalHelp,
            AppModalState::ModalFileSelect => AppModalState::ModalFileSelect,
            AppModalState::ModalSessionSelect => AppModalState::ModalSessionSelect,
            AppModalState::Quit => AppModalState::Quit,
        }
    }
}

/// The line shown for a connection status.
pub open spec fn status_line(s: ConnectionStatus) -> Seq<char> {
    match s {
        ConnectionStatus::Disconnected => "Disconnected from server! Press 'r' to retry"@,
        ConnectionStatus::Connecting => "Connecting to OpenCode server..."@,
        ConnectionStatus::Connected => "Connected to server..."@,
        ConnectionStatus::InitializingSession => "Initializing session..."@,
        ConnectionStatus::SessionReady => "✓ Session ready!"@,
        ConnectionStatus::Error(_) => "Connection failed! Press 'r' to retry"@,
    }
}

fn owned(s: &str) -> (r: String)
    ensures
        r@ == s@,
{
    string_from_chars(chars_of(s).as_slice())
}

impl ConnectionStatus {
    /// The line shown for this status.
    pub fn status_text(&self) -> (r: String)
        ensures
            r@ == status_line(*self),
    {
        match self {
            ConnectionStatus::Disconnected => owned("Disconnected from server! Press 'r' to retry"),
            ConnectionStatus::Connecting => owned("Connecting to OpenCode server..."),
            ConnectionStatus::Connected => owned("Connected to server..."),
            ConnectionStatus::InitializingSession => owned("Initializing session..."),
            ConnectionStatus::SessionReady => owned("✓ Session ready!"),
            ConnectionStatus::Error(_) => owned("Connection failed! Press 'r' to retry"),
        }
    }
}

/// Height of the inline viewport, in rows.
pub const INLINE_HEIGHT: u16 = 12;

/// How long after its start a repeat shortcut stays armed, in milliseconds.
pub const REPEAT_WINDOW_MS: u64 = 1000;

/// Milliseconds from `started` to `now`, when `now` is not earlier.
pub open spec fn elapsed(started: u64, now: u64) -> Option<nat> {
    if now >= started {
        Some((now - started) as nat)
    } else {
        None
    }
}

/// Whether a shortcut pressed at `started` is still armed at `now`.
pub open spec fn within_window(started: u64, now: u64) -> bool {
    elapsed(started, now) matches Some(e) && e < REPEAT_WINDOW_MS
}

/// Whether a timeout is still running at `now`.
pub open spec fn timeout_running(t: Timeout, now: u64) -> bool {
    elapsed(t.started_at_ms, now) matches Some(e) && e < t.duration_ms
}

/// Whether a timeout has run out at `now`.
pub open spec fn timeout_expired(t: Timeout, now: u64) -> bool {
    elapsed(t.started_at_ms, now) matches Some(e) && e >= t.duration_ms
}

/// The timeouts that a new one of kind `tt` leaves in place.
pub open spec fn kept_after_set(ts: Seq<Timeout>, tt: TimeoutType) -> Seq<Timeout> {
    ts.filter(|t: Timeout| !replaces(tt, t.timeout_type))
}

/// The timeouts that are not of kind `tt`.
pub open spec fn kept_after_clear(ts: Seq<Timeout>, tt: TimeoutType) -> Seq<Timeout> {
    ts.filter(|t: Timeout| !same_timeout_type(t.timeout_type, tt))
}

/// The kinds of the timeouts that have run out at `now`, in order.
pub open spec fn expired_kinds(ts: Seq<Timeout>, now: u64) -> Seq<TimeoutType> {
    ts.filter(|t: Timeout| timeout_expired(t, now)).map_values(|t: Timeout| t.timeout_type)
}

/// The timeouts still running at `now`.
pub open spec fn running(ts: Seq<Timeout>, now: u64) -> Seq<Timeout> {
    ts.filter(|t: Timeout| timeout_running(t, now))
}

/// Whether `key`'s repeat shortcut is armed at `now` in model `m`.
pub open spec fn shortcut_armed(m: Model, key: RepeatShortcutKey, now: u64) -> bool {
    m.repeat_shortcut_timeout matches Some(t) && t.key == key && within_window(t.started_at_ms, now)
}

/// Whether any repeat shortcut is armed at `now` in model `m`.
pub open spec fn any_shortcut_armed(m: Model, now: u64) -> bool {
    m.repeat_shortcut_timeout matches Some(t) && within_window(t.started_at_ms, now)
}

/// Whether the armed repeat shortcut of `m` has run out at `now`.
pub open spec fn shortcut_ran_out(m: Model, now: u64) -> bool {
    m.repeat_shortcut_timeout matches Some(t) && now >= t.started_at_ms && now - t.started_at_ms
        >= REPEAT_WINDOW_MS
}

/// Whether a timeout of kind `tt` is running at `now` among `ts`.
pub open spec fn kind_running(ts: Seq<Timeout>, tt: TimeoutType, now: u64) -> bool {
    exists|i: int|
        0 <= i < ts.len() && same_timeout_type((#[trigger] ts[i]).timeout_type, tt)
            && timeout_running(ts[i], now)
}

/// The agent configured for a mode index: build, plan, general.
pub open spec fn mode_agent(modes: Option<ConfigAgent>, index: Option<u16>) -> Option<AgentConfig> {
    match (modes, index) {
        (Some(c), Some(0u16)) => c.build,
        (Some(c), Some(1u16)) => c.plan,
        (Some(c), Some(2u16)) => c.general,
        _ => None,
    }
}

/// The name of a mode index.
pub open spec fn mode_name(index: Option<u16>) -> Option<Seq<char>> {
    match index {
        Some(0u16) => Some("build"@),
        Some(1u16) => Some("plan"@),
        Some(2u16) => Some("general"@),
        _ => None,
    }
}

/// The next mode index: the first when none, back to the first after the
/// last (or when out of range).
pub open spec fn next_mode(index: Option<u16>) -> Option<u16> {
    match index {
        None => Some(0u16),
        Some(c) => if c > 2 {
            Some(0u16)
        } else {
            Some(((c + 1) % 3) as u16)
        },
    }
}

/// The other verbosity level.
pub open spec fn toggled(v: VerbosityLevel) -> VerbosityLevel {
    match v {
        VerbosityLevel::Summary => VerbosityLevel::Verbose,
        VerbosityLevel::Verbose => VerbosityLevel::Summary,
    }
}

/// Whether a session has the given id.
pub open spec fn session_has_id(s: Session, id: Seq<char>) -> bool {
    s.id@ == id
}

/// The application model.
pub struct Model {
    pub init: ModelInit,
    pub config: UserConfig,
    pub state: AppModalState,
    pub input_history: Vec<String>,
    pub last_input: Option<String>,
    pub printed_to_stdout_count: usize,
    pub sdk_mode: String,
    pub sdk_provider: String,
    /// Default model for messages; empty until the application sets one.
    pub sdk_model: String,
    pub verbosity_level: VerbosityLevel,
    pub message_log: MessageLog,
    pub text_input_area: TextInputArea,
    pub modal_session_selector: SessionSelector,
    pub modal_file_selector: FileSelector,
    pub client: Option<OpenCodeClient>,
    pub session_state: SessionState,
    pub sessions: Vec<Session>,
    pub modes: Option<ConfigAgent>,
    pub mode_state: Option<u16>,
    pub connection_status: ConnectionStatus,
    pub pending_first_message: Option<String>,
    pub message_state: MessageState,
    pub event_stream_state: EventStreamState,
    pub active_task_count: usize,
    pub session_is_idle: bool,
    pub file_status: Vec<File>,
    pub attached_files: Vec<AttachedFile>,
    pub repeat_shortcut_timeout: Option<RepeatShortcutTimeout>,
    pub active_timeouts: Vec<Timeout>,
    /// The clock that stamps the ids this client makes.
    pub id_clock: IdClock,
}

/// The log is emptied and the session list records entry `index` as
/// current.
pub open spec fn session_entry_chosen(old: Model, new: Model, index: Option<usize>) -> bool {
    &&& new.message_log.wf()
    &&& new.message_log.containers_view().len() == 0
    &&& new.message_log.vertical_view() == 0
    &&& new.message_log.horizontal_view() == 0
    &&& new.modal_session_selector.current_view() == index
    &&& new.modal_session_selector.modal_view() == old.modal_session_selector.modal_view()
}

/// A new session is prepared: the log is emptied, no entry is current, the
/// main screen is shown and a pending session with a fresh session id
/// waits for the first message.
pub open spec fn new_session_prepared(old: Model, new: Model) -> bool {
    &&& session_entry_chosen(old, new, None)
    &&& new.state is NoModal
    &&& new.session_state matches SessionState::Pending(info) && is_id_shaped(
        info.temp_id@,
        IdPrefix::Session,
    )
    &&& new == Model {
        message_log: new.message_log,
        modal_session_selector: new.modal_session_selector,
        state: new.state,
        session_state: new.session_state,
        id_clock: new.id_clock,
        ..old
    }
}

/// An existing session (entry `index`) is chosen: the log is emptied and
/// the session's initialization is shown.
pub open spec fn existing_session_chosen(old: Model, new: Model, index: Option<usize>) -> bool {
    &&& session_entry_chosen(old, new, index)
    &&& new.state == AppModalState::Connecting(ConnectionStatus::InitializingSession)
    &&& new == Model {
        message_log: new.message_log,
        modal_session_selector: new.modal_session_selector,
        state: new.state,
        ..old
    }
}

/// Whether the state is a connection pop-up: disconnected, initializing a
/// session, connecting, or failed.
pub open spec fn connection_modal(s: AppModalState) -> bool {
    match s {
        AppModalState::Connecting(ConnectionStatus::Disconnected) => true,
        AppModalState::Connecting(ConnectionStatus::InitializingSession) => true,
        AppModalState::Connecting(ConnectionStatus::Connecting) => true,
        AppModalState::Connecting(ConnectionStatus::Error(_)) => true,
        _ => false,
    }
}

/// Whether a pop-up has the input.
pub open spec fn modal_active(s: AppModalState) -> bool {
    s is ModalSessionSelect || s is ModalHelp || s is ModalFileSelect || connection_modal(s)
}

/// Whether the main screen has the input.
pub open spec fn main_screen(s: AppModalState) -> bool {
    (s is NoModal || s == AppModalState::Connecting(ConnectionStatus::Connected) || s
        == AppModalState::Connecting(ConnectionStatus::SessionReady)) && !modal_active(s)
}

impl Model {
    /// The parts kept consistent: the message store, the log's cache, the
    /// input box's bounds and its editor's cursor.
    pub open spec fn wf(&self) -> bool {
        &&& self.message_state.wf()
        &&& self.message_log.wf()
        &&& self.text_input_area.wf()
        &&& self.text_input_area.editor_wf()
    }

    /// Whether the client is connected and the server is ready.
    pub open spec fn client_ready(&self) -> bool {
        self.client is Some && (self.connection_status is Connected || self.connection_status
            is SessionReady)
    }

    /// Whether a session is ready for messages.
    pub open spec fn session_ready(&self) -> bool {
        &&& self.client is Some
        &&& self.session_state is Ready
        &&& (self.state == AppModalState::Connecting(ConnectionStatus::SessionReady)
            || !(self.state is Connecting))
    }

    /// The ready session.
    pub open spec fn ready_session(&self) -> Option<Session> {
        match self.session_state {
            SessionState::Ready(s) => Some(s),
            _ => None,
        }
    }

    /// The id of the session chosen in the session list (entry 0 creates a
    /// new one).
    pub open spec fn chosen_session_id(&self) -> Option<Seq<char>> {
        match self.modal_session_selector.current_view() {
            None => None,
            Some(0usize) => None,
            Some(n) => if n - 1 < self.sessions@.len() {
                Some(self.sessions@[n - 1].id@)
            } else {
                None
            },
        }
    }

    /// A model connecting to the server in inline mode, with an empty,
    /// focused input box and nothing loaded.
    pub fn new() -> (m: Model)
        ensures
            m.wf(),
            m.init.inline_view(),
            m.config == (UserConfig {
                ui_block_is_rounded: true,
                ui_status_is_bottom: true,
                ui_status_use_labels: true,
                height: INLINE_HEIGHT,
                keys_shortcut_timeout_ms: 1000,
            }),
            m.state == AppModalState::Connecting(ConnectionStatus::Connecting),
            m.connection_status == ConnectionStatus::Connecting,
            m.input_history@.len() == 0,
            m.last_input is None,
            m.printed_to_stdout_count == 0,
            m.sdk_mode@ == "chat"@,
            m.sdk_provider@ == "anthropic"@,
            m.sdk_model@ == ""@,
            m.verbosity_level == VerbosityLevel::Summary,
            m.text_input_area.focused_view(),
            m.text_input_area.lines_view() == seq![Seq::<char>::empty()],
            m.message_log.containers_view().len() == 0,
            m.client is None,
            m.session_state is Empty,
            m.sessions@.len() == 0,
            m.modes is None,
            m.mode_state is None,
            m.pending_first_message is None,
            m.message_state.messages_view().len() == 0,
            m.message_state.session_view() is None,
            m.event_stream_state is Disconnected,
            m.active_task_count == 0,
            m.session_is_idle,
            m.file_status@.len() == 0,
            m.attached_files@.len() == 0,
            m.repeat_shortcut_timeout is None,
            m.active_timeouts@.len() == 0,
    {
        let mut text_input_area = TextInputArea::new();
        text_input_area.set_focus(true);
        Model {
            init: ModelInit::new(true),
            config: UserConfig {
                ui_block_is_rounded: true,
                ui_status_is_bottom: true,
                ui_status_use_labels: true,
                height: INLINE_HEIGHT,
                keys_shortcut_timeout_ms: 1000,
            },
            state: AppModalState::Connecting(ConnectionStatus::Connecting),
            input_history: Vec::new(),
            last_input: None,
            printed_to_stdout_count: 0,
            sdk_mode: owned("chat"),
            sdk_provider: owned("anthropic"),
            sdk_model: owned(""),
            verbosity_level: VerbosityLevel::Summary,
            message_log: MessageLog::new(),
            text_input_area,
            modal_session_selector: SessionSelector::new("Select Session"),
            modal_file_selector: FileSelector::new(),
            client: None,
            session_state: SessionState::Empty,
            sessions: Vec::new(),
            modes: None,
            mode_state: None,
            connection_status: ConnectionStatus::Connecting,
            pending_first_message: None,
            message_state: MessageState::new(),
            event_stream_state: EventStreamState::Disconnected,
            active_task_count: 0,
            session_is_idle: true,
            file_status: Vec::new(),
            attached_files: Vec::new(),
            repeat_shortcut_timeout: None,
            active_timeouts: Vec::new(),
            id_clock: IdClock::new(),
        }
    }

    /// Whether messages wait to be printed above the inline viewport.
    pub fn needs_manual_output(&self) -> (b: bool)
        ensures
            b == (self.init.inline_view() && exists|i: int|
                0 <= i < self.message_state.messages_view().len()
                    && !(#[trigger] self.message_state.messages_view()[i]).printed_to_stdout),
    {
        self.init.inline_mode() && self.message_state.has_messages_needing_stdout_print()
    }

    /// The texts of the messages not yet printed.
    pub fn messages_needing_stdout_print(&self) -> (r: Vec<String>)
        ensures
            r@.map_values(|s: String| s@) == stdout_texts(self.message_state.messages_view()),
    {
        self.message_state.get_messages_needing_stdout_print()
    }

    /// The messages not yet printed.
    pub fn message_containers_for_rendering(&self) -> (r: Vec<&MessageContainer>)
        ensures
            r@.map_values(|c: &MessageContainer| c@) == unprinted(
                self.message_state.messages_view(),
            ),
    {
        self.message_state.get_message_containers_for_rendering()
    }

    /// Marks the first `count` unprinted messages as printed and counts
    /// them.
    pub fn mark_messages_printed_to_stdout(&mut self, count: usize)
        requires
            old(self).wf(),
            old(self).printed_to_stdout_count + count <= usize::MAX,
        ensures
            final(self).wf(),
            final(self).message_state.messages_view() == crate::message_state::mark_printed(
                old(self).message_state.messages_view(),
                count as nat,
            ),
            final(self).message_state.session_view() == old(self).message_state.session_view(),
            final(self).printed_to_stdout_count == old(self).printed_to_stdout_count + count,
            *final(self) == (Model { message_state: final(self).message_state, printed_to_stdout_count: final(self).printed_to_stdout_count, ..*old(self) }),
    {
        self.message_state.mark_messages_printed_to_stdout(count);
        self.printed_to_stdout_count = self.printed_to_stdout_count + count;
    }

    /// Empties the input box and forgets the input history.
    pub fn clear_input_state(&mut self)
        requires
            old(self).wf(),
        ensures
            final(self).wf(),
            final(self).text_input_area.lines_view() == seq![Seq::<char>::empty()],
            final(self).text_input_area.focused_view() == old(self).text_input_area.focused_view(),
            final(self).last_input is None,
            final(self).input_history@.len() == 0,
            final(self).printed_to_stdout_count == 0,
            *final(self) == (Model {
                text_input_area: final(self).text_input_area,
                last_input: None,
                input_history: final(self).input_history,
                printed_to_stdout_count: 0,
                ..*old(self)
            }),
    {
        self.text_input_area.clear();
        self.last_input = None;
        self.input_history = Vec::new();
        self.printed_to_stdout_count = 0;
    }

    /// The server's base URL, or `unknown` without a client.
    pub fn client_base_url(&self) -> (r: &str)
        ensures
            r@ == match self.client {
                Some(c) => c.url(),
                None => "unknown"@,
            },
    {
        match &self.client {
            Some(c) => c.base_url(),
            None => "unknown",
        }
    }

    /// Whether a client is connected to a ready server.
    pub fn is_client_ready(&self) -> (b: bool)
        ensures
            b == self.client_ready(),
    {
        self.client.is_some() && match self.connection_status {
            ConnectionStatus::Connected | ConnectionStatus::SessionReady => true,
            _ => false,
        }
    }

    /// Whether a connection pop-up is shown.
    pub fn is_connnection_modal_active(&self) -> (b: bool)
        ensures
            b == connection_modal(self.state),
    {
        match &self.state {
            AppModalState::Connecting(ConnectionStatus::Disconnected)
            | AppModalState::Connecting(ConnectionStatus::InitializingSession)
            | AppModalState::Connecting(ConnectionStatus::Connecting)
            | AppModalState::Connecting(ConnectionStatus::Error(_)) => true,
            _ => false,
        }
    }

    /// Whether any pop-up is shown.
    pub fn is_modal_active(&self) -> (b: bool)
        ensures
            b == modal_active(self.state),
    {
        match &self.state {
            AppModalState::ModalSessionSelect | AppModalState::ModalHelp
            | AppModalState::ModalFileSelect => true,
            _ => self.is_connnection_modal_active(),
        }
    }

    /// Whether the main screen is shown.
    pub fn is_main_screen_active(&self) -> (b: bool)
        ensures
            b == main_screen(self.state),
    {
        let on_main = match &self.state {
            AppModalState::NoModal | AppModalState::Connecting(ConnectionStatus::Connected)
            | AppModalState::Connecting(ConnectionStatus::SessionReady) => true,
            _ => false,
        };
        on_main && !self.is_modal_active()
    }

    /// Whether a session is ready for messages.
    pub fn is_session_ready(&self) -> (b: bool)
        ensures
            b == self.session_ready(),
    {
        let ready = match &self.session_state {
            SessionState::Ready(_) => true,
            _ => false,
        };
        let state_ok = match &self.state {
            AppModalState::Connecting(ConnectionStatus::SessionReady) => true,
            AppModalState::Connecting(_) => false,
            _ => true,
        };
        self.client.is_some() && ready && state_ok
    }

    /// The client, if connected.
    pub fn client(&self) -> (r: Option<&OpenCodeClient>)
        ensures
            r == match &self.client {
                Some(c) => Some(c),
                None => None::<&OpenCodeClient>,
            },
    {
        match &self.client {
            Some(c) => Some(c),
            None => None,
        }
    }

    /// The ready session, if any.
    pub fn session(&self) -> (r: Option<&Session>)
        ensures
            match r {
                Some(s) => self.ready_session() == Some(*s),
                None => self.ready_session() is None,
            },
    {
        match &self.session_state {
            SessionState::Ready(s) => Some(s),
            _ => None,
        }
    }

    /// Empties the log, records the chosen entry and returns to the main
    /// screen.
    pub fn change_session_by_index(&mut self, index: Option<usize>)
        requires
            old(self).wf(),
        ensures
            final(self).wf(),
            session_entry_chosen(*old(self), *final(self), index),
            final(self).state is NoModal,
            *final(self) == (Model {
                message_log: final(self).message_log,
                modal_session_selector: final(self).modal_session_selector,
                state: final(self).state,
                ..*old(self)
            }),
    {
        self.message_log.set_message_containers(Vec::new());
        self.modal_session_selector.set_current_session_index(index);
        self.state = AppModalState::NoModal;
    }

    /// Switches to the session at entry `index` of the session list: entry
    /// 0 prepares a new session (created with the first message) and
    /// returns `false`; an existing session's entry starts its
    /// initialization and returns `true`; anything else changes nothing.
    pub fn change_session(&mut self, index: Option<usize>) -> (switched: bool)
        requires
            old(self).wf(),
        ensures
            final(self).wf(),
            index == Some(0usize) ==> !switched && new_session_prepared(*old(self), *final(self)),
            (index matches Some(i) && i > 0 && i - 1 < old(self).sessions@.len()) ==> switched
                && existing_session_chosen(*old(self), *final(self), index),
            (index is None || (index matches Some(i) && i > 0 && i - 1 >= old(self).sessions@.len()))
                ==> !switched && *final(self) == *old(self),
    {
        match index {
            Some(0) => {
                self.change_session_by_index(None);
                self.state = AppModalState::NoModal;
                let temp_id = self.id_clock.generate(IdPrefix::Session, false);
                let created_at_ms = current_time_millis();
                self.session_state = SessionState::Pending(PendingSessionInfo { temp_id, created_at_ms });
            },
            Some(requested) => {
                let session_index = requested - 1;
                if session_index < self.sessions.len() {
                    self.change_session_by_index(Some(requested));
                    self.state = AppModalState::Connecting(ConnectionStatus::InitializingSession);
                    return true;
                }
            },
            None => {},
        }
        false
    }

    /// The id of the session chosen in the session list.
    pub fn current_session_id(&self) -> (r: Option<String>)
        ensures
            match r {
                Some(s) => self.chosen_session_id() == Some(s@),
                None => self.chosen_session_id() is None,
            },
    {
        match self.modal_session_selector.current_session_index() {
            None => None,
            Some(0) => None,
            Some(n) => if n - 1 < self.sessions.len() {
                Some(self.sessions[n - 1].id.clone())
            } else {
                None
            },
        }
    }

    /// Whether a session waits to be created.
    pub fn has_pending_or_creating_session(&self) -> (b: bool)
        ensures
            b == (self.session_state is Pending || self.session_state is Creating),
    {
        match &self.session_state {
            SessionState::Pending(_) | SessionState::Creating(_) => true,
            _ => false,
        }
    }

    /// Whether typed messages can be sent (now or once the session exists).
    pub fn can_accept_input(&self) -> (b: bool)
        ensures
            b == (self.session_state is Pending || self.session_state is Creating
                || self.session_state is Ready),
    {
        match &self.session_state {
            SessionState::Pending(_) | SessionState::Creating(_) | SessionState::Ready(_) => true,
            _ => false,
        }
    }

    /// Arms a repeat shortcut as pressed at `now_ms`.
    pub fn set_repeat_shortcut_timeout_at(&mut self, key: RepeatShortcutKey, now_ms: u64)
        ensures
            final(self).repeat_shortcut_timeout == Some(
                RepeatShortcutTimeout { key, started_at_ms: now_ms },
            ),
            *final(self) == (Model { repeat_shortcut_timeout: final(self).repeat_shortcut_timeout, ..*old(self) }),
    {
        self.repeat_shortcut_timeout = Some(RepeatShortcutTimeout { key, started_at_ms: now_ms });
    }

    /// Arms a repeat shortcut as pressed now.
    pub fn set_repeat_shortcut_timeout(&mut self, key: RepeatShortcutKey)
        ensures
            final(self).repeat_shortcut_timeout matches Some(t) && t.key == key,
            *final(self) == (Model { repeat_shortcut_timeout: final(self).repeat_shortcut_timeout, ..*old(self) }),
    {
        let now = current_time_millis();
        self.set_repeat_shortcut_timeout_at(key, now);
    }

    /// Disarms the repeat shortcut.
    pub fn clear_repeat_shortcut_timeout(&mut self)
        ensures
            final(self).repeat_shortcut_timeout is None,
            *final(self) == (Model { repeat_shortcut_timeout: final(self).repeat_shortcut_timeout, ..*old(self) }),
    {
        self.repeat_shortcut_timeout = None;
    }

    /// Disarms the repeat shortcut if it is the leader key.
    pub fn clear_repeat_leader_timeout(&mut self)
        ensures
            final(self).repeat_shortcut_timeout == (match old(self).repeat_shortcut_timeout {
                Some(t) => if t.key == RepeatShortcutKey::Leader {
                    None
                } else {
                    Some(t)
                },
                None => None,
            }),
            *final(self) == (Model { repeat_shortcut_timeout: final(self).repeat_shortcut_timeout, ..*old(self) }),
    {
        match self.repeat_shortcut_timeout {
            Some(t) => if t.key == RepeatShortcutKey::Leader {
                self.repeat_shortcut_timeout = None;
            },
            None => {},
        }
    }

    /// Whether `key` was pressed less than a second before `now_ms`.
    pub fn is_repeat_shortcut_timeout_active_at(&self, key: RepeatShortcutKey, now_ms: u64) -> (b:
        bool)
        ensures
            b == (self.repeat_shortcut_timeout matches Some(t) && t.key == key && within_window(
                t.started_at_ms,
                now_ms,
            )),
    {
        match self.repeat_shortcut_timeout {
            Some(t) => t.key == key && now_ms >= t.started_at_ms && now_ms - t.started_at_ms
                < REPEAT_WINDOW_MS,
            None => false,
        }
    }

    /// Whether `key` was pressed less than a second ago.
    pub fn is_repeat_shortcut_timeout_active(&self, key: RepeatShortcutKey) -> (b: bool)
        ensures
            exists|now: u64| b == #[trigger] shortcut_armed(*self, key, now),
            b ==> (self.repeat_shortcut_timeout matches Some(t) && t.key == key),
    {
        let now = current_time_millis();
        let b = self.is_repeat_shortcut_timeout_active_at(key, now);
        assert(b == shortcut_armed(*self, key, now));
        b
    }

    /// Whether any repeat shortcut is armed at `now_ms`.
    pub fn has_active_timeout_at(&self, now_ms: u64) -> (b: bool)
        ensures
            b == (self.repeat_shortcut_timeout matches Some(t) && within_window(
                t.started_at_ms,
                now_ms,
            )),
    {
        match self.repeat_shortcut_timeout {
            Some(t) => now_ms >= t.started_at_ms && now_ms - t.started_at_ms < REPEAT_WINDOW_MS,
            None => false,
        }
    }

    /// Whether any repeat shortcut is armed.
    pub fn has_active_timeout(&self) -> (b: bool)
        ensures
            exists|now: u64| b == #[trigger] any_shortcut_armed(*self, now),
            b ==> self.repeat_shortcut_timeout is Some,
    {
        let now = current_time_millis();
        let b = self.has_active_timeout_at(now);
        assert(b == any_shortcut_armed(*self, now));
        b
    }

    /// Disarms a repeat shortcut pressed a second or more before `now_ms`;
    /// says whether it did.
    pub fn expire_timeout_if_needed_at(&mut self, now_ms: u64) -> (expired: bool)
        ensures
            expired == (old(self).repeat_shortcut_timeout matches Some(t) && now_ms
                >= t.started_at_ms && now_ms - t.started_at_ms >= REPEAT_WINDOW_MS),
            final(self).repeat_shortcut_timeout == (if expired {
                None
            } else {
                old(self).repeat_shortcut_timeout
            }),
            *final(self) == (Model { repeat_shortcut_timeout: final(self).repeat_shortcut_timeout, ..*old(self) }),
    {
        match self.repeat_shortcut_timeout {
            Some(t) => {
                if now_ms >= t.started_at_ms && now_ms - t.started_at_ms >= REPEAT_WINDOW_MS {
                    self.repeat_shortcut_timeout = None;
                    return true;
                }
            },
            None => {},
        }
        false
    }

    /// Disarms a repeat shortcut pressed a second or more ago.
    pub fn expire_timeout_if_needed(&mut self) -> (expired: bool)
        ensures
            final(self).repeat_shortcut_timeout == (if expired {
                None
            } else {
                old(self).repeat_shortcut_timeout
            }),
            expired ==> old(self).repeat_shortcut_timeout is Some,
            exists|now: u64| expired == #[trigger] shortcut_ran_out(*old(self), now),
            *final(self) == (Model { repeat_shortcut_timeout: final(self).repeat_shortcut_timeout, ..*old(self) }),
    {
        let now = current_time_millis();
        let expired = self.expire_timeout_if_needed_at(now);
        assert(expired == shortcut_ran_out(*old(self), now));
        expired
    }

    /// Starts a timeout of kind `timeout_type` at `now_ms`, replacing one of
    /// the same kind (any debounce replaces any debounce).
    pub fn set_timeout_at(&mut self, timeout_type: TimeoutType, duration_ms: u64, now_ms: u64)
        ensures
            final(self).active_timeouts@ == kept_after_set(
                old(self).active_timeouts@,
                timeout_type,
            ).push(Timeout { timeout_type, started_at_ms: now_ms, duration_ms }),
            *final(self) == (Model { active_timeouts: final(self).active_timeouts, ..*old(self) }),
    {
        let ghost tt = timeout_type;
        let mut kept: Vec<Timeout> = Vec::new();
        let mut old_list: Vec<Timeout> = Vec::new();
        std::mem::swap(&mut old_list, &mut self.active_timeouts);
        let ghost all = old_list@;
        let n = old_list.len();
        let mut i: usize = 0;
        reveal(Seq::filter);
        assert(all.take(0).filter(|t: Timeout| !replaces(tt, t.timeout_type)) =~= Seq::<
            Timeout,
        >::empty());
        assert(old_list@ =~= all.skip(0));
        while i < n
            invariant
                n == all.len(),
                i <= n,
                tt == timeout_type,
                old_list@ == all.skip(i as int),
                kept@ == all.take(i as int).filter(|t: Timeout| !replaces(tt, t.timeout_type)),
            decreases n - i,
        {
            proof {
                reveal(Seq::filter);
            }
            let t = old_list.remove(0);
            assert(old_list@ =~= all.skip(i + 1));
            assert(all.take(i + 1).drop_last() =~= all.take(i as int));
            assert(all.take(i + 1).last() == t);
            let drop = replaces_exec(&timeout_type, &t.timeout_type);
            if !drop {
                kept.push(t);
            }
            i = i + 1;
        }
        assert(all.take(n as int) =~= all);
        kept.push(Timeout { timeout_type, started_at_ms: now_ms, duration_ms });
        self.active_timeouts = kept;
    }

    /// Starts a timeout of kind `timeout_type` now.
    pub fn set_timeout(&mut self, timeout_type: TimeoutType, duration_ms: u64)
        ensures
            final(self).active_timeouts@.len() == kept_after_set(
                old(self).active_timeouts@,
                timeout_type,
            ).len() + 1,
            final(self).active_timeouts@.drop_last() == kept_after_set(
                old(self).active_timeouts@,
                timeout_type,
            ),
            final(self).active_timeouts@.last().timeout_type == timeout_type,
            final(self).active_timeouts@.last().duration_ms == duration_ms,
            *final(self) == (Model { active_timeouts: final(self).active_timeouts, ..*old(self) }),
    {
        let now = current_time_millis();
        let ghost tt = timeout_type;
        self.set_timeout_at(timeout_type, duration_ms, now);
        assert(self.active_timeouts@.drop_last() =~= kept_after_set(old(self).active_timeouts@, tt));
    }

    /// Removes the timeouts of kind `timeout_type`.
    pub fn clear_timeout(&mut self, timeout_type: &TimeoutType)
        ensures
            final(self).active_timeouts@ == kept_after_clear(
                old(self).active_timeouts@,
                *timeout_type,
            ),
            *final(self) == (Model { active_timeouts: final(self).active_timeouts, ..*old(self) }),
    {
        let ghost tt = *timeout_type;
        let mut kept: Vec<Timeout> = Vec::new();
        let mut old_list: Vec<Timeout> = Vec::new();
        std::mem::swap(&mut old_list, &mut self.active_timeouts);
        let ghost all = old_list@;
        let n = old_list.len();
        let mut i: usize = 0;
        reveal(Seq::filter);
        assert(all.take(0).filter(|t: Timeout| !same_timeout_type(t.timeout_type, tt)) =~= Seq::<
            Timeout,
        >::empty());
        assert(old_list@ =~= all.skip(0));
        while i < n
            invariant
                n == all.len(),
                i <= n,
                tt == *timeout_type,
                old_list@ == all.skip(i as int),
                kept@ == all.take(i as int).filter(|t: Timeout| !same_timeout_type(t.timeout_type, tt)),
            decreases n - i,
        {
            proof {
                reveal(Seq::filter);
            }
            let t = old_list.remove(0);
            assert(old_list@ =~= all.skip(i + 1));
            assert(all.take(i + 1).drop_last() =~= all.take(i as int));
            assert(all.take(i + 1).last() == t);
            let same = same_timeout_type_exec(&t.timeout_type, timeout_type);
            if !same {
                kept.push(t);
            }
            i = i + 1;
        }
        assert(all.take(n as int) =~= all);
        self.active_timeouts = kept;
    }

    /// Whether a timeout of kind `timeout_type` is running at `now_ms`.
    pub fn is_timeout_active_at(&self, timeout_type: &TimeoutType, now_ms: u64) -> (b: bool)
        ensures
            b == exists|i: int|
                0 <= i < self.active_timeouts@.len() && same_timeout_type(
                    (#[trigger] self.active_timeouts@[i]).timeout_type,
                    *timeout_type,
                ) && timeout_running(self.active_timeouts@[i], now_ms),
    {
        let mut i: usize = 0;
        while i < self.active_timeouts.len()
            invariant
                i <= self.active_timeouts@.len(),
                forall|k: int|
                    0 <= k < i ==> !(same_timeout_type(
                        (#[trigger] self.active_timeouts@[k]).timeout_type,
                        *timeout_type,
                    ) && timeout_running(self.active_timeouts@[k], now_ms)),
            decreases self.active_timeouts.len() - i,
        {
            let t = &self.active_timeouts[i];
            if same_timeout_type_exec(&t.timeout_type, timeout_type) && now_ms >= t.started_at_ms
                && now_ms - t.started_at_ms < t.duration_ms {
                return true;
            }
            i = i + 1;
        }
        false
    }

    /// Whether a timeout of kind `timeout_type` is running.
    pub fn is_timeout_active(&self, timeout_type: &TimeoutType) -> (b: bool)
        ensures
            exists|now: u64| b == #[trigger] kind_running(self.active_timeouts@, *timeout_type, now),
            b ==> exists|i: int|
                0 <= i < self.active_timeouts@.len() && same_timeout_type(
                    (#[trigger] self.active_timeouts@[i]).timeout_type,
                    *timeout_type,
                ),
    {
        let now = current_time_millis();
        let b = self.is_timeout_active_at(timeout_type, now);
        assert(b == kind_running(self.active_timeouts@, *timeout_type, now));
        b
    }

    /// Removes the timeouts that have run out at `now_ms` (and those started
    /// after it), returning the kinds of those that ran out.
    pub fn get_expired_timeouts_at(&mut self, now_ms: u64) -> (r: Vec<TimeoutType>)
        ensures
            r@ == expired_kinds(old(self).active_timeouts@, now_ms),
            final(self).active_timeouts@ == running(old(self).active_timeouts@, now_ms),
            *final(self) == (Model { active_timeouts: final(self).active_timeouts, ..*old(self) }),
    {
        let mut kept: Vec<Timeout> = Vec::new();
        let mut expired: Vec<TimeoutType> = Vec::new();
        let mut old_list: Vec<Timeout> = Vec::new();
        std::mem::swap(&mut old_list, &mut self.active_timeouts);
        let ghost all = old_list@;
        let n = old_list.len();
        let mut i: usize = 0;
        reveal(Seq::filter);
        assert(all.take(0).filter(|t: Timeout| timeout_running(t, now_ms)) =~= Seq::<Timeout>::empty());
        assert(expired_kinds(all.take(0), now_ms) =~= Seq::<TimeoutType>::empty());
        assert(old_list@ =~= all.skip(0));
        while i < n
            invariant
                n == all.len(),
                i <= n,
                old_list@ == all.skip(i as int),
                kept@ == running(all.take(i as int), now_ms),
                expired@ == expired_kinds(all.take(i as int), now_ms),
            decreases n - i,
        {
            proof {
                reveal(Seq::filter);
            }
            let t = old_list.remove(0);
            assert(old_list@ =~= all.skip(i + 1));
            assert(all.take(i + 1).drop_last() =~= all.take(i as int));
            assert(all.take(i + 1).last() == t);
            let ghost before_e = all.take(i as int).filter(|x: Timeout| timeout_expired(x, now_ms));
            let ghost after_e = all.take(i + 1).filter(|x: Timeout| timeout_expired(x, now_ms));
            if now_ms >= t.started_at_ms {
                if now_ms - t.started_at_ms >= t.duration_ms {
                    assert(after_e =~= before_e.push(t));
                    assert(after_e.map_values(|x: Timeout| x.timeout_type) =~= before_e.map_values(
                        |x: Timeout| x.timeout_type,
                    ).push(t.timeout_type));
                    expired.push(t.timeout_type);
                } else {
                    assert(after_e =~= before_e);
                    kept.push(t);
                }
            } else {
                assert(after_e =~= before_e);
            }
            i = i + 1;
        }
        assert(all.take(n as int) =~= all);
        self.active_timeouts = kept;
        expired
    }

    /// Removes the timeouts that have run out, returning their kinds.
    pub fn get_expired_timeouts(&mut self) -> (r: Vec<TimeoutType>)
        ensures
            exists|now: u64|
                r@ == expired_kinds(old(self).active_timeouts@, now)
                    && final(self).active_timeouts@ == #[trigger] running(
                    old(self).active_timeouts@,
                    now,
                ),
            *final(self) == (Model { active_timeouts: final(self).active_timeouts, ..*old(self) }),
    {
        let now = current_time_millis();
        self.get_expired_timeouts_at(now)
    }

    /// Selects a mode by index.
    pub fn set_mode(&mut self, index: u16)
        ensures
            final(self).mode_state == Some(index),
            final(self).modes == old(self).modes,
            *final(self) == (Model { mode_state: final(self).mode_state, ..*old(self) }),
    {
        self.mode_state = Some(index);
    }

    /// The agent of the selected mode (build, plan or general).
    pub fn get_current_mode(&self) -> (r: Option<&AgentConfig>)
        ensures
            match r {
                Some(a) => mode_agent(self.modes, self.mode_state) == Some(*a),
                None => mode_agent(self.modes, self.mode_state) is None,
            },
    {
        match (&self.modes, self.mode_state) {
            (Some(c), Some(0)) => match &c.build {
                Some(a) => Some(a),
                None => None,
            },
            (Some(c), Some(1)) => match &c.plan {
                Some(a) => Some(a),
                None => None,
            },
            (Some(c), Some(2)) => match &c.general {
                Some(a) => Some(a),
                None => None,
            },
            _ => None,
        }
    }

    /// The name of the selected mode.
    pub fn get_current_mode_name(&self) -> (r: Option<String>)
        ensures
            match r {
                Some(s) => mode_name(self.mode_state) == Some(s@),
                None => mode_name(self.mode_state) is None,
            },
    {
        match self.mode_state {
            Some(0) => Some(owned("build")),
            Some(1) => Some(owned("plan")),
            Some(2) => Some(owned("general")),
            _ => None,
        }
    }

    /// Stores the configured modes and selects the first.
    pub fn set_modes(&mut self, modes: ConfigAgent)
        ensures
            final(self).modes == Some(modes),
            final(self).mode_state == Some(0u16),
            *final(self) == (Model { modes: final(self).modes, mode_state: final(self).mode_state, ..*old(self) }),
    {
        self.modes = Some(modes);
        self.mode_state = Some(0);
    }

    /// Selects the next mode, cycling through the three.
    pub fn increment_mode_index(&mut self)
        ensures
            final(self).mode_state == next_mode(old(self).mode_state),
            final(self).modes == old(self).modes,
            *final(self) == (Model { mode_state: final(self).mode_state, ..*old(self) }),
    {
        self.mode_state = match self.mode_state {
            None => Some(0),
            Some(current) => if current > 2 {
                Some(0)
            } else {
                Some((current + 1) % 3)
            },
        };
    }

    /// Provider, model and mode name for a message: the selected mode's
    /// model (or the default model) with the default provider; without a
    /// selected mode, the defaults and no mode.
    pub fn get_mode_and_model_settings(&self) -> (r: (String, String, Option<String>))
        ensures
            r.0 == self.sdk_provider,
            match mode_agent(self.modes, self.mode_state) {
                Some(a) => {
                    &&& r.1 == (match a.model {
                        Some(m) => m,
                        None => self.sdk_model,
                    })
                    &&& match r.2 {
                        Some(s) => mode_name(self.mode_state) == Some(s@),
                        None => mode_name(self.mode_state) is None,
                    }
                },
                None => r.1 == self.sdk_model && r.2 is None,
            },
    {
        match self.get_current_mode() {
            Some(current_mode) => {
                let model_name = match &current_mode.model {
                    Some(m) => m.clone(),
                    None => self.sdk_model.clone(),
                };
                (self.sdk_provider.clone(), model_name, self.get_current_mode_name())
            },
            None => (self.sdk_provider.clone(), self.sdk_model.clone(), None),
        }
    }

    /// Switches between summary and verbose tool output.
    pub fn toggle_verbosity(&mut self)
        ensures
            final(self).verbosity_level == toggled(old(self).verbosity_level),
            *final(self) == (Model { verbosity_level: final(self).verbosity_level, ..*old(self) }),
    {
        self.verbosity_level = match self.verbosity_level {
            VerbosityLevel::Summary => VerbosityLevel::Verbose,
            VerbosityLevel::Verbose => VerbosityLevel::Summary,
        };
    }
}

fn same_timeout_type_exec(a: &TimeoutType, b: &TimeoutType) -> (r: bool)
    ensures
        r == same_timeout_type(*a, *b),
{
    match (a, b) {
        (TimeoutType::RepeatShortcut(x), TimeoutType::RepeatShortcut(y)) => *x == *y,
        (TimeoutType::DebounceFindFiles(x), TimeoutType::DebounceFindFiles(y)) => crate::models::string_eq(
            x,
            y,
        ),
        _ => false,
    }
}

fn replaces_exec(new: &TimeoutType, old: &TimeoutType) -> (r: bool)
    ensures
        r == replaces(*new, *old),
{
    match new {
        TimeoutType::DebounceFindFiles(_) => match old {
            TimeoutType::DebounceFindFiles(_) => true,
            _ => false,
        },
        _ => same_timeout_type_exec(new, old),
    }
}


// ---------------------------------------------------------------------------
// Laws
// ---------------------------------------------------------------------------

/// Toggling the verbosity changes it, and toggling it twice restores it.
pub proof fn law_toggle_verbosity_twice(v: VerbosityLevel)
    ensures
        toggled(v) != v,
        toggled(toggled(v)) == v,
{
}

/// Selecting the next mode always selects one of the three named modes, and
/// three steps from a named mode come back to it.
pub proof fn law_mode_cycle(index: Option<u16>)
    ensures
        next_mode(index) matches Some(n) && n < 3,
        mode_name(next_mode(index)) is Some,
        (index matches Some(c) && c < 3) ==> next_mode(next_mode(next_mode(index))) == index,
{
}

/// A timeout just set is running at its start when its duration is positive,
/// and no other timeout of a kind it replaces is left beside it.
pub proof fn law_set_timeout_single_and_running(
    ts: Seq<Timeout>,
    tt: TimeoutType,
    duration_ms: u64,
    now_ms: u64,
)
    requires
        duration_ms > 0,
    ensures
        ({
            let after = kept_after_set(ts, tt).push(
                Timeout { timeout_type: tt, started_at_ms: now_ms, duration_ms },
            );
            &&& exists|i: int|
                0 <= i < after.len() && same_timeout_type((#[trigger] after[i]).timeout_type, tt)
                    && timeout_running(after[i], now_ms)
            &&& forall|i: int|
                0 <= i < after.len() - 1 ==> !replaces(tt, (#[trigger] after[i]).timeout_type)
        }),
{
    broadcast use vstd::seq_lib::group_seq_properties;

    let kept = kept_after_set(ts, tt);
    let after = kept.push(Timeout { timeout_type: tt, started_at_ms: now_ms, duration_ms });
    assert(same_timeout_type(after[after.len() - 1].timeout_type, tt));
    assert(timeout_running(after[after.len() - 1], now_ms));
    assert forall|i: int| 0 <= i < after.len() - 1 implies !replaces(
        tt,
        (#[trigger] after[i]).timeout_type,
    ) by {
        assert(after[i] == kept[i]);
    }
}

/// After the timeouts of a kind are cleared, none of that kind is running.
pub proof fn law_cleared_timeout_inactive(ts: Seq<Timeout>, tt: TimeoutType, now_ms: u64)
    ensures
        !exists|i: int|
            0 <= i < kept_after_clear(ts, tt).len() && same_timeout_type(
                (#[trigger] kept_after_clear(ts, tt)[i]).timeout_type,
                tt,
            ) && timeout_running(kept_after_clear(ts, tt)[i], now_ms),
{
    broadcast use vstd::seq_lib::group_seq_properties;

}

/// The timeouts kept by a sweep at `now_ms` are all running then: a second
/// sweep at the same instant expires nothing and keeps them all.
pub proof fn law_expiry_sweep_idempotent(ts: Seq<Timeout>, now_ms: u64)
    ensures
        expired_kinds(running(ts, now_ms), now_ms) == Seq::<TimeoutType>::empty(),
        running(running(ts, now_ms), now_ms) == running(ts, now_ms),
    decreases ts.len(),
{
    reveal(Seq::filter);
    if ts.len() > 0 {
        let init = ts.drop_last();
        let x = ts.last();
        law_expiry_sweep_idempotent(init, now_ms);
        let r0 = running(init, now_ms);
        if timeout_running(x, now_ms) {
            assert(running(ts, now_ms) == r0.push(x));
            let r = r0.push(x);
            assert(r.drop_last() =~= r0);
            assert(r.last() == x);
            assert(running(r, now_ms) == running(r0, now_ms).push(x));
            assert(r.filter(|t: Timeout| timeout_expired(t, now_ms)) == r0.filter(
                |t: Timeout| timeout_expired(t, now_ms),
            ));
            assert(expired_kinds(r0, now_ms).len() == 0);
            assert(r0.filter(|t: Timeout| timeout_expired(t, now_ms)).len() == expired_kinds(
                r0,
                now_ms,
            ).len());
            assert(expired_kinds(r, now_ms) =~= Seq::<TimeoutType>::empty());
        } else {
            assert(running(ts, now_ms) == r0);
        }
    } else {
        assert(running(ts, now_ms) =~= ts);
        assert(expired_kinds(ts, now_ms) =~= Seq::<TimeoutType>::empty());
    }
}

/// Switching to an existing session's entry makes that session the chosen
/// one.
pub proof fn law_switch_chooses_session(old: Model, new: Model, i: usize)
    requires
        0 < i,
        i - 1 < old.sessions@.len(),
        existing_session_chosen(old, new, Some(i)),
    ensures
        new.chosen_session_id() == Some(old.sessions@[i - 1].id@),
{
}

/// Choosing the "new session" entry leaves no existing session chosen and a
/// session waiting to be created.
pub proof fn law_new_session_entry_pending(old: Model, new: Model)
    requires
        new_session_prepared(old, new),
    ensures
        new.chosen_session_id() is None,
        new.session_state is Pending,
{
}

/// Two drawing settings are equal exactly when their inline flags are.
pub proof fn law_model_init_equal_iff_inline(a: ModelInit, b: ModelInit)
    ensures
        a == b <==> a.inline_view() == b.inline_view(),
{
}

/// Settings built from a flag hold that flag, and settings built from two
/// flags are equal exactly when the flags are.
pub proof fn law_model_init_built_from_flag(b: bool, c: bool)
    ensures
        ModelInit::built_from(b).inline_view() == b,
        ModelInit::built_from(b) == ModelInit::built_from(c) <==> b == c,
{
}

} // verus!
