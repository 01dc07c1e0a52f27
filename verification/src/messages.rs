//! The messages the update function handles, the commands it returns for
//! the application to carry out, and the input sources it subscribes to.

use vstd::prelude::*;
use crate::client::OpenCodeClient;
use crate::error::OpenCodeError;
use crate::model::{AppModalState, EventStreamHandle, RepeatShortcutKey};
use crate::models::{ConfigAgent, Event, File, Session, SessionMessage};
use crate::selectors::{MsgModalFileSelector, MsgModalSessionSelector};
use crate::text_input::MsgTextArea;

verus! {

/// The number of a background task.
pub type TaskId = u64;

/// Something that happened: input, a server reply, or an event.
#[derive(Debug, PartialEq)]
pub enum Msg {
    InitializeClient,
    SessionAbort,
    ChangeState(AppModalState),
    Quit,
    ScrollMessageLog(i16),
    ScrollMessageLogHorizontal(i16),
    /// Viewport height and width.
    ValidateScrollPosition(u16, u16),
    SubmitTextInput,
    CycleModeState,
    ToggleVerbosity,
    LeaderChangeInline,
    LeaderShowSessionSelector,
    MarkMessagesViewed,
    RepeatShortcutPressed(RepeatShortcutKey),
    ClearTimeout,
    ResponseClientConnect(Result<OpenCodeClient, OpenCodeError>),
    ResponseSessionInit(Result<Session, OpenCodeError>),
    /// The created session and the first message to send in it.
    ResponseSessionCreateWithMessage(Result<(Session, String), OpenCodeError>),
    ResponseSessionsLoad(Result<Vec<Session>, OpenCodeError>),
    ResponseModesLoad(Result<ConfigAgent, OpenCodeError>),
    ResponseSessionMessagesLoad(Result<Vec<SessionMessage>, OpenCodeError>),
    ResponseUserMessageSend(Result<String, OpenCodeError>),
    ResponseFileStatusesLoad(Result<Vec<File>, OpenCodeError>),
    EventReceived(Event),
    EventStreamConnected(EventStreamHandle),
    EventStreamDisconnected,
    EventStreamError(String),
    /// The attempt number.
    EventStreamReconnecting(u32),
    TaskStarted(TaskId, String),
    TaskCompleted(TaskId),
    TaskFailed(TaskId, String),
    RecordActiveTaskCount(usize),
    /// Width and height.
    TerminalResize(u16, u16),
    ChangeInlineHeight(u16),
    TextArea(MsgTextArea),
    ModalSessionSelector(MsgModalSessionSelector),
    ModalFileSelector(MsgModalFileSelector),
}

/// Work for the application to carry out.
#[derive(Debug, Clone, PartialEq)]
pub enum Cmd {
    /// Nothing to do.
    NoCmd,
    TerminalAutoResize,
    TerminalRebootWithInline(bool),
    TerminalResizeInlineViewport(u16),
    TerminalScrollPastHeight,
    AsyncSpawnClientDiscovery,
    AsyncSpawnSessionInit(OpenCodeClient),
    AsyncCreateSessionWithMessage(OpenCodeClient, String),
    AsyncLoadSessions(OpenCodeClient),
    AsyncLoadModes(OpenCodeClient),
    AsyncLoadSessionMessages(OpenCodeClient, String),
    AsyncLoadFileStatus(OpenCodeClient),
    /// Client, session id, message id, text, provider id, model id, mode.
    AsyncSendUserMessage(OpenCodeClient, String, String, String, String, String, Option<String>),
    AsyncCancelTask(TaskId),
    AsyncSessionAbort,
    AsyncStartEventStream(OpenCodeClient),
    AsyncStopEventStream,
    AsyncReconnectEventStream,
}

/// One command or several.
#[derive(Debug, Clone, PartialEq)]
pub enum CmdOrBatch<T> {
    Single(T),
    Batch(Vec<T>),
}

/// An input source the application listens to.
#[derive(Debug, Clone, Copy, PartialEq, Eq, Structural)]
pub enum Sub {
    KeyboardInput,
    TerminalResize,
    EventStream,
}

} // verus!
