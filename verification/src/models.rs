//! Plain models of the server's data: sessions, messages, parts, files,
//! agent configuration and server-sent events.

use vstd::prelude::*;
use crate::json::{JsonField, JsonValue};

verus! {

/// A chat session.
#[derive(Debug, PartialEq)]
pub struct Session {
    pub id: String,
    pub title: String,
}

impl Clone for Session {
    fn clone(&self) -> (r: Self)
        ensures
            r == *self,
    {
        Session { id: self.id.clone(), title: self.title.clone() }
    }
}

/// A user message's metadata.
#[derive(Debug, PartialEq)]
pub struct UserMessage {
    pub id: String,
    pub session_id: String,
}

/// An assistant message's metadata.
#[derive(Debug, PartialEq)]
pub struct AssistantMessage {
    pub id: String,
    pub session_id: String,
}

/// Message metadata, by role.
#[derive(Debug, PartialEq)]
pub enum Message {
    User(UserMessage),
    Assistant(AssistantMessage),
}

/// A text part.
#[derive(Debug, PartialEq)]
pub struct TextPart {
    pub id: String,
    pub session_id: String,
    pub message_id: String,
    pub text: String,
    pub synthetic: Option<bool>,
}

/// Tool execution state.
#[derive(Debug, PartialEq)]
pub enum ToolState {
    Pending,
    Running {
        input: Option<JsonValue>,
    },
    Completed {
        input: Vec<JsonField>,
        output: String,
        metadata: Vec<JsonField>,
    },
    Error {
        input: Vec<JsonField>,
        error: String,
    },
}

/// A tool call part.
#[derive(Debug, PartialEq)]
pub struct ToolPart {
    pub id: String,
    pub session_id: String,
    pub message_id: String,
    pub call_id: String,
    pub tool: String,
    pub state: ToolState,
}

/// A file attachment part.
#[derive(Debug, PartialEq)]
pub struct FilePart {
    pub id: String,
    pub session_id: String,
    pub message_id: String,
    pub mime: String,
    pub filename: Option<String>,
    pub url: String,
}

/// A step boundary part (start or finish).
#[derive(Debug, PartialEq)]
pub struct StepPart {
    pub id: String,
    pub session_id: String,
    pub message_id: String,
}

/// A snapshot part.
#[derive(Debug, PartialEq)]
pub struct SnapshotPart {
    pub id: String,
    pub session_id: String,
    pub message_id: String,
    pub snapshot: String,
}

/// A reasoning part.
#[derive(Debug, PartialEq)]
pub struct ReasoningPart {
    pub id: String,
    pub session_id: String,
    pub message_id: String,
    pub text: String,
}

/// A patch part, with the paths of the files it touches.
#[derive(Debug, PartialEq)]
pub struct PatchPart {
    pub id: String,
    pub session_id: String,
    pub message_id: String,
    pub files: Vec<String>,
}

/// An agent part; `source_json` is the JSON text of its source as the server
/// sent it (`null` when it sent none).
#[derive(Debug, PartialEq)]
pub struct AgentPart {
    pub id: String,
    pub session_id: String,
    pub message_id: String,
    pub name: String,
    pub source_json: String,
}

/// A message part.
#[derive(Debug, PartialEq)]
pub enum Part {
    Text(TextPart),
    Tool(ToolPart),
    File(FilePart),
    StepStart(StepPart),
    StepFinish(StepPart),
    Snapshot(SnapshotPart),
    Reasoning(ReasoningPart),
    Patch(PatchPart),
    Agent(AgentPart),
}

/// A message with its parts, as the session message listing returns it.
#[derive(Debug, Clone, PartialEq)]
pub struct SessionMessage {
    pub info: Message,
    pub parts: Vec<Part>,
}

/// A file's working-tree status.
#[derive(Debug, PartialEq)]
pub struct File {
    pub path: String,
    pub added: i64,
    pub removed: i64,
    pub status: String,
}

impl Clone for File {
    fn clone(&self) -> (r: Self)
        ensures
            r == *self,
    {
        File {
            path: self.path.clone(),
            added: self.added,
            removed: self.removed,
            status: self.status.clone(),
        }
    }
}

/// Configuration of one agent (mode).
#[derive(Debug, Clone, PartialEq)]
pub struct AgentConfig {
    pub model: Option<String>,
    pub prompt: Option<String>,
}

/// The configured agents.
#[derive(Debug, Clone, PartialEq)]
pub struct ConfigAgent {
    pub build: Option<AgentConfig>,
    pub plan: Option<AgentConfig>,
    pub general: Option<AgentConfig>,
}

/// A server-sent event.
#[derive(Debug, Clone, PartialEq)]
pub enum Event {
    MessageUpdated { info: Message },
    MessagePartUpdated { part: Part },
    MessageRemoved { session_id: String, message_id: String },
    MessagePartRemoved { session_id: String, message_id: String, part_id: String },
    SessionUpdated { info: Session },
    SessionDeleted { info: Session },
    SessionIdle { session_id: String },
    /// `error` is the rendering of the error object the server sent.
    SessionError { session_id: Option<String>, error: Option<String> },
    PermissionUpdated,
    PermissionReplied,
    FileEdited,
    FileWatcherUpdated,
    StorageWrite,
    InstallationUpdated,
    LspClientDiagnostics,
    ServerConnected,
    IdeInstalled,
}

impl Clone for UserMessage {
    fn clone(&self) -> (r: Self)
        ensures
            r == *self,
    {
        UserMessage {
            id: self.id.clone(),
            session_id: self.session_id.clone(),
        }
    }
}

impl Clone for AssistantMessage {
    fn clone(&self) -> (r: Self)
        ensures
            r == *self,
    {
        AssistantMessage {
            id: self.id.clone(),
            session_id: self.session_id.clone(),
        }
    }
}

impl Clone for TextPart {
    fn clone(&self) -> (r: Self)
        ensures
            r == *self,
    {
        TextPart {
            id: self.id.clone(),
            session_id: self.session_id.clone(),
            message_id: self.message_id.clone(),
            text: self.text.clone(),
            synthetic: self.synthetic,
        }
    }
}

impl Clone for FilePart {
    fn clone(&self) -> (r: Self)
        ensures
            r == *self,
    {
        FilePart {
            id: self.id.clone(),
            session_id: self.session_id.clone(),
            message_id: self.message_id.clone(),
            mime: self.mime.clone(),
            filename: match &self.filename {
                Some(x) => Some(x.clone()),
                None => None,
            },
            url: self.url.clone(),
        }
    }
}

impl Clone for StepPart {
    fn clone(&self) -> (r: Self)
        ensures
            r == *self,
    {
        StepPart {
            id: self.id.clone(),
            session_id: self.session_id.clone(),
            message_id: self.message_id.clone(),
        }
    }
}

impl Clone for SnapshotPart {
    fn clone(&self) -> (r: Self)
        ensures
            r == *self,
    {
        SnapshotPart {
            id: self.id.clone(),
            session_id: self.session_id.clone(),
            message_id: self.message_id.clone(),
            snapshot: self.snapshot.clone(),
        }
    }
}

impl Clone for ReasoningPart {
    fn clone(&self) -> (r: Self)
        ensures
            r == *self,
    {
        ReasoningPart {
            id: self.id.clone(),
            session_id: self.session_id.clone(),
            message_id: self.message_id.clone(),
            text: self.text.clone(),
        }
    }
}

fn clone_strings(v: &Vec<String>) -> (r: Vec<String>)
    ensures
        r@ == v@,
{
    let mut r: Vec<String> = Vec::new();
    let mut i: usize = 0;
    while i < v.len()
        invariant
            i <= v@.len(),
            r@ == v@.take(i as int),
        decreases v.len() - i,
    {
        r.push(v[i].clone());
        assert(v@.take(i + 1) =~= v@.take(i as int).push(v@[i as int]));
        i = i + 1;
    }
    assert(v@.take(i as int) =~= v@);
    r
}

/// A copy of a patch part: the same ids and the same file paths.
pub open spec fn patch_part_copy(a: PatchPart, b: PatchPart) -> bool {
    &&& a.id == b.id
    &&& a.session_id == b.session_id
    &&& a.message_id == b.message_id
    &&& a.files@ == b.files@
}

impl Clone for PatchPart {
    fn clone(&self) -> (r: Self)
        ensures
            patch_part_copy(*self, r),
    {
        PatchPart {
            id: self.id.clone(),
            session_id: self.session_id.clone(),
            message_id: self.message_id.clone(),
            files: clone_strings(&self.files),
        }
    }
}

impl Clone for AgentPart {
    fn clone(&self) -> (r: Self)
        ensures
            r == *self,
    {
        AgentPart {
            id: self.id.clone(),
            session_id: self.session_id.clone(),
            message_id: self.message_id.clone(),
            name: self.name.clone(),
            source_json: self.source_json.clone(),
        }
    }
}

impl Clone for Message {
    fn clone(&self) -> (r: Self)
        ensures
            r == *self,
    {
        match self {
            Message::User(u) => Message::User(u.clone()),
            Message::Assistant(a) => Message::Assistant(a.clone()),
        }
    }
}

/// A copy of a tool state: the same variant with the same output or error
/// text; JSON payloads are copied without a claim on them.
pub open spec fn tool_state_copy(a: ToolState, b: ToolState) -> bool {
    match (a, b) {
        (ToolState::Pending, ToolState::Pending) => true,
        (ToolState::Running { .. }, ToolState::Running { .. }) => true,
        (ToolState::Completed { output: o1, .. }, ToolState::Completed { output: o2, .. }) => o1 == o2,
        (ToolState::Error { error: e1, .. }, ToolState::Error { error: e2, .. }) => e1 == e2,
        _ => false,
    }
}

impl Clone for ToolState {
    fn clone(&self) -> (r: Self)
        ensures
            tool_state_copy(*self, r),
    {
        match self {
            ToolState::Pending => ToolState::Pending,
            ToolState::Running { input } => ToolState::Running {
                input: match input {
                    Some(v) => Some(v.clone()),
                    None => None,
                },
            },
            ToolState::Completed { input, output, metadata } => ToolState::Completed {
                input: input.clone(),
                output: output.clone(),
                metadata: metadata.clone(),
            },
            ToolState::Error { input, error } => ToolState::Error {
                input: input.clone(),
                error: error.clone(),
            },
        }
    }
}

/// A copy of a tool part: the same ids, call and tool name, and a copy of
/// its state.
pub open spec fn tool_part_copy(a: ToolPart, b: ToolPart) -> bool {
    &&& a.id == b.id
    &&& a.session_id == b.session_id
    &&& a.message_id == b.message_id
    &&& a.call_id == b.call_id
    &&& a.tool == b.tool
    &&& tool_state_copy(a.state, b.state)
}

impl Clone for ToolPart {
    fn clone(&self) -> (r: Self)
        ensures
            tool_part_copy(*self, r),
    {
        ToolPart {
            id: self.id.clone(),
            session_id: self.session_id.clone(),
            message_id: self.message_id.clone(),
            call_id: self.call_id.clone(),
            tool: self.tool.clone(),
            state: self.state.clone(),
        }
    }
}

/// A copy of a part: equal, but for a tool part, which is a copy.
pub open spec fn part_copy(a: Part, b: Part) -> bool {
    match (a, b) {
        (Part::Tool(x), Part::Tool(y)) => tool_part_copy(x, y),
        (Part::Tool(_), _) => false,
        (Part::Patch(x), Part::Patch(y)) => patch_part_copy(x, y),
        (Part::Patch(_), _) => false,
        _ => a == b,
    }
}

impl Clone for Part {
    fn clone(&self) -> (r: Self)
        ensures
            part_copy(*self, r),
    {
        match self {
            Part::Text(x) => Part::Text(x.clone()),
            Part::Tool(x) => Part::Tool(x.clone()),
            Part::File(x) => Part::File(x.clone()),
            Part::StepStart(x) => Part::StepStart(x.clone()),
            Part::StepFinish(x) => Part::StepFinish(x.clone()),
            Part::Snapshot(x) => Part::Snapshot(x.clone()),
            Part::Reasoning(x) => Part::Reasoning(x.clone()),
            Part::Patch(x) => Part::Patch(x.clone()),
            Part::Agent(x) => Part::Agent(x.clone()),
        }
    }
}

/// Id of a message.
pub open spec fn message_id_of(m: Message) -> Seq<char> {
    match m {
        Message::User(u) => u.id@,
        Message::Assistant(a) => a.id@,
    }
}

/// Session id of a message.
pub open spec fn message_session_of(m: Message) -> Seq<char> {
    match m {
        Message::User(u) => u.session_id@,
        Message::Assistant(a) => a.session_id@,
    }
}

/// Id of a part.
pub open spec fn part_id_of(p: Part) -> Seq<char> {
    match p {
        Part::Text(x) => x.id@,
        Part::Tool(x) => x.id@,
        Part::File(x) => x.id@,
        Part::StepStart(x) => x.id@,
        Part::StepFinish(x) => x.id@,
        Part::Snapshot(x) => x.id@,
        Part::Reasoning(x) => x.id@,
        Part::Patch(x) => x.id@,
        Part::Agent(x) => x.id@,
    }
}

/// Id of the message a part belongs to.
pub open spec fn part_message_of(p: Part) -> Seq<char> {
    match p {
        Part::Text(x) => x.message_id@,
        Part::Tool(x) => x.message_id@,
        Part::File(x) => x.message_id@,
        Part::StepStart(x) => x.message_id@,
        Part::StepFinish(x) => x.message_id@,
        Part::Snapshot(x) => x.message_id@,
        Part::Reasoning(x) => x.message_id@,
        Part::Patch(x) => x.message_id@,
        Part::Agent(x) => x.message_id@,
    }
}

/// Session of a part.
pub open spec fn part_session_of(p: Part) -> Seq<char> {
    match p {
        Part::Text(x) => x.session_id@,
        Part::Tool(x) => x.session_id@,
        Part::File(x) => x.session_id@,
        Part::StepStart(x) => x.session_id@,
        Part::StepFinish(x) => x.session_id@,
        Part::Snapshot(x) => x.session_id@,
        Part::Reasoning(x) => x.session_id@,
        Part::Patch(x) => x.session_id@,
        Part::Agent(x) => x.session_id@,
    }
}

/// The id of a message.
pub fn extract_message_id(m: &Message) -> (r: &String)
    ensures
        r@ == message_id_of(*m),
{
    match m {
        Message::User(u) => &u.id,
        Message::Assistant(a) => &a.id,
    }
}

/// The session id of a message.
pub fn extract_session_id_from_message(m: &Message) -> (r: &String)
    ensures
        r@ == message_session_of(*m),
{
    match m {
        Message::User(u) => &u.session_id,
        Message::Assistant(a) => &a.session_id,
    }
}

/// The id of a part.
pub fn extract_part_id(p: &Part) -> (r: &String)
    ensures
        r@ == part_id_of(*p),
{
    match p {
        Part::Text(x) => &x.id,
        Part::Tool(x) => &x.id,
        Part::File(x) => &x.id,
        Part::StepStart(x) => &x.id,
        Part::StepFinish(x) => &x.id,
        Part::Snapshot(x) => &x.id,
        Part::Reasoning(x) => &x.id,
        Part::Patch(x) => &x.id,
        Part::Agent(x) => &x.id,
    }
}

/// The id of the message a part belongs to.
pub fn extract_message_id_from_part(p: &Part) -> (r: &String)
    ensures
        r@ == part_message_of(*p),
{
    match p {
        Part::Text(x) => &x.message_id,
        Part::Tool(x) => &x.message_id,
        Part::File(x) => &x.message_id,
        Part::StepStart(x) => &x.message_id,
        Part::StepFinish(x) => &x.message_id,
        Part::Snapshot(x) => &x.message_id,
        Part::Reasoning(x) => &x.message_id,
        Part::Patch(x) => &x.message_id,
        Part::Agent(x) => &x.message_id,
    }
}

/// The session id of a part.
pub fn extract_session_id_from_part(p: &Part) -> (r: &String)
    ensures
        r@ == part_session_of(*p),
{
    match p {
        Part::Text(x) => &x.session_id,
        Part::Tool(x) => &x.session_id,
        Part::File(x) => &x.session_id,
        Part::StepStart(x) => &x.session_id,
        Part::StepFinish(x) => &x.session_id,
        Part::Snapshot(x) => &x.session_id,
        Part::Reasoning(x) => &x.session_id,
        Part::Patch(x) => &x.session_id,
        Part::Agent(x) => &x.session_id,
    }
}

/// Whether two strings are equal.
pub fn string_eq(a: &String, b: &String) -> (r: bool)
    ensures
        r == (a@ == b@),
{
    a.eq(b)
}

} // verus!
