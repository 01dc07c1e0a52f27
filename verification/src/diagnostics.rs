//! Figures for inspecting a session from the command line: how many parts
//! and tool calls its messages hold, by state, and how an event is titled.

use vstd::prelude::*;
use crate::models::{Event, Part, SessionMessage, ToolState};

verus! {

/// Counts of parts and of tool calls by state.
#[derive(Debug, Clone, Copy, PartialEq, Eq, Structural)]
pub struct ToolTally {
    pub total_parts: usize,
    pub tool_parts: usize,
    pub pending: usize,
    pub running: usize,
    pub completed: usize,
    pub error: usize,
}

/// Counts as integers: parts, tools, pending, running, completed, error.
pub struct TallyView {
    pub total_parts: nat,
    pub tool_parts: nat,
    pub pending: nat,
    pub running: nat,
    pub completed: nat,
    pub error: nat,
}

/// The counts with one more part added.
pub open spec fn tally_part(t: TallyView, p: Part) -> TallyView {
    let t1 = TallyView { total_parts: t.total_parts + 1, ..t };
    match p {
        Part::Tool(tp) => {
            let t2 = TallyView { tool_parts: t1.tool_parts + 1, ..t1 };
            match tp.state {
                ToolState::Pending => TallyView { pending: t2.pending + 1, ..t2 },
                ToolState::Running { .. } => TallyView { running: t2.running + 1, ..t2 },
                ToolState::Completed { .. } => TallyView { completed: t2.completed + 1, ..t2 },
                ToolState::Error { .. } => TallyView { error: t2.error + 1, ..t2 },
            }
        },
        _ => t1,
    }
}

/// The counts after adding the parts in order.
pub open spec fn tally_parts(t: TallyView, ps: Seq<Part>) -> TallyView
    decreases ps.len(),
{
    if ps.len() == 0 {
        t
    } else {
        tally_part(tally_parts(t, ps.drop_last()), ps.last())
    }
}

/// The counts over every part of the messages.
pub open spec fn tally_messages(ms: Seq<SessionMessage>) -> TallyView
    decreases ms.len(),
{
    if ms.len() == 0 {
        TallyView { total_parts: 0, tool_parts: 0, pending: 0, running: 0, completed: 0, error: 0 }
    } else {
        tally_parts(tally_messages(ms.drop_last()), ms.last().parts@)
    }
}

/// Number of parts over all messages.
pub open spec fn part_count(ms: Seq<SessionMessage>) -> nat
    decreases ms.len(),
{
    if ms.len() == 0 {
        0
    } else {
        part_count(ms.drop_last()) + ms.last().parts@.len()
    }
}

proof fn lemma_tally_parts_bounded(t: TallyView, ps: Seq<Part>)
    ensures
        tally_parts(t, ps).total_parts == t.total_parts + ps.len(),
        tally_parts(t, ps).tool_parts <= t.tool_parts + ps.len(),
        tally_parts(t, ps).tool_parts >= t.tool_parts,
        tally_parts(t, ps).pending <= t.pending + ps.len(),
        tally_parts(t, ps).running <= t.running + ps.len(),
        tally_parts(t, ps).completed <= t.completed + ps.len(),
        tally_parts(t, ps).error <= t.error + ps.len(),
    decreases ps.len(),
{
    if ps.len() > 0 {
        lemma_tally_parts_bounded(t, ps.drop_last());
    }
}

proof fn lemma_tally_messages_bounded(ms: Seq<SessionMessage>)
    ensures
        tally_messages(ms).total_parts == part_count(ms),
        tally_messages(ms).tool_parts <= part_count(ms),
        tally_messages(ms).pending <= part_count(ms),
        tally_messages(ms).running <= part_count(ms),
        tally_messages(ms).completed <= part_count(ms),
        tally_messages(ms).error <= part_count(ms),
    decreases ms.len(),
{
    if ms.len() > 0 {
        lemma_tally_messages_bounded(ms.drop_last());
        lemma_tally_parts_bounded(tally_messages(ms.drop_last()), ms.last().parts@);
    }
}

proof fn lemma_part_count_prefix(ms: Seq<SessionMessage>, i: int)
    requires
        0 <= i <= ms.len(),
    ensures
        part_count(ms.take(i)) <= part_count(ms),
    decreases ms.len() - i,
{
    if i < ms.len() {
        assert(ms.drop_last().take(i) =~= ms.take(i));
        lemma_part_count_prefix(ms.drop_last(), i);
    } else {
        assert(ms.take(i) =~= ms);
    }
}

impl ToolTally {
    /// The counts as integers.
    pub open spec fn view_tally(self) -> TallyView {
        TallyView {
            total_parts: self.total_parts as nat,
            tool_parts: self.tool_parts as nat,
            pending: self.pending as nat,
            running: self.running as nat,
            completed: self.completed as nat,
            error: self.error as nat,
        }
    }
}

/// Counts the parts of the messages, and their tool calls by state.
pub fn tally_tool_states(messages: &Vec<SessionMessage>) -> (r: ToolTally)
    requires
        part_count(messages@) <= usize::MAX,
    ensures
        r.view_tally() == tally_messages(messages@),
{
    let mut t = ToolTally { total_parts: 0, tool_parts: 0, pending: 0, running: 0, completed: 0, error: 0 };
    let mut i: usize = 0;
    let ghost ms = messages@;
    assert(ms.take(0) =~= Seq::<SessionMessage>::empty());
    while i < messages.len()
        invariant
            ms == messages@,
            i <= ms.len(),
            part_count(ms) <= usize::MAX,
            t.view_tally() == tally_messages(ms.take(i as int)),
        decreases messages.len() - i,
    {
        let parts = &messages[i].parts;
        let ghost before = t.view_tally();
        proof {
            assert(ms.take(i + 1).drop_last() =~= ms.take(i as int));
            lemma_part_count_prefix(ms, i + 1);
            lemma_tally_messages_bounded(ms.take(i + 1));
            lemma_tally_messages_bounded(ms.take(i as int));
        }
        let mut j: usize = 0;
        assert(parts@.take(0) =~= Seq::<Part>::empty());
        while j < parts.len()
            invariant
                ms == messages@,
                i < ms.len(),
                parts@ == ms[i as int].parts@,
                j <= parts@.len(),
                t.view_tally() == tally_parts(before, parts@.take(j as int)),
                before == tally_messages(ms.take(i as int)),
                part_count(ms.take(i + 1)) <= usize::MAX,
                part_count(ms.take(i + 1)) == part_count(ms.take(i as int)) + parts@.len(),
                before.total_parts == part_count(ms.take(i as int)),
                before.tool_parts <= part_count(ms.take(i as int)),
                before.pending <= part_count(ms.take(i as int)),
                before.running <= part_count(ms.take(i as int)),
                before.completed <= part_count(ms.take(i as int)),
                before.error <= part_count(ms.take(i as int)),
            decreases parts.len() - j,
        {
            proof {
                assert(parts@.take(j + 1).drop_last() =~= parts@.take(j as int));
                lemma_tally_parts_bounded(before, parts@.take(j as int));
            }
            t.total_parts = t.total_parts + 1;
            match &parts[j] {
                Part::Tool(tp) => {
                    t.tool_parts = t.tool_parts + 1;
                    match &tp.state {
                        ToolState::Pending => {
                            t.pending = t.pending + 1;
                        },
                        ToolState::Running { .. } => {
                            t.running = t.running + 1;
                        },
                        ToolState::Completed { .. } => {
                            t.completed = t.completed + 1;
                        },
                        ToolState::Error { .. } => {
                            t.error = t.error + 1;
                        },
                    }
                },
                _ => {},
            }
            j = j + 1;
        }
        assert(parts@.take(parts@.len() as int) =~= parts@);
        i = i + 1;
    }
    assert(ms.take(ms.len() as int) =~= ms);
    t
}

/// How an event is titled: an icon, its kind, and the heading of its
/// properties.
#[derive(Debug, Clone, Copy, PartialEq, Eq)]
pub struct EventLabel {
    pub icon: &'static str,
    pub kind: &'static str,
    pub properties_heading: &'static str,
}

/// The kind's name of an event, for the kinds that are titled.
pub open spec fn event_kind_name(e: Event) -> Option<Seq<char>> {
    match e {
        Event::MessageUpdated { .. } => Some("MessageUpdated"@),
        Event::MessagePartUpdated { .. } => Some("MessagePartUpdated"@),
        Event::MessageRemoved { .. } => Some("MessageRemoved"@),
        Event::SessionUpdated { .. } => Some("SessionUpdated"@),
        Event::SessionDeleted { .. } => Some("SessionDeleted"@),
        Event::SessionError { .. } => Some("SessionError"@),
        Event::SessionIdle { .. } => Some("SessionIdle"@),
        Event::FileEdited => Some("FileEdited"@),
        Event::FileWatcherUpdated => Some("FileWatcherUpdated"@),
        Event::StorageWrite => Some("StorageWrite"@),
        Event::LspClientDiagnostics => Some("LspClientDiagnostics"@),
        Event::InstallationUpdated => Some("InstallationUpdated"@),
        Event::IdeInstalled => Some("IdeInstalled"@),
        Event::PermissionUpdated => Some("PermissionUpdated"@),
        _ => None,
    }
}

/// The heading of an event's properties, for the kinds that are titled.
pub open spec fn properties_heading(e: Event) -> Seq<char> {
    match e {
        Event::SessionError { .. } => "Error Properties"@,
        Event::FileEdited => "File Properties"@,
        Event::FileWatcherUpdated => "Watcher Properties"@,
        Event::StorageWrite => "Storage Properties"@,
        Event::LspClientDiagnostics => "Diagnostics Properties"@,
        Event::InstallationUpdated => "Installation Properties"@,
        Event::IdeInstalled => "IDE Properties"@,
        Event::PermissionUpdated => "Permission Properties"@,
        _ => "Properties"@,
    }
}

/// The icon shown before an event's kind.
pub open spec fn event_icon(e: Event) -> Seq<char> {
    match e {
        Event::MessageRemoved { .. } | Event::SessionDeleted { .. } => "🗑️"@,
        Event::SessionError { .. } => "❌"@,
        Event::SessionIdle { .. } => "😴"@,
        Event::FileEdited => "📝"@,
        Event::FileWatcherUpdated => "👁️"@,
        Event::StorageWrite => "💾"@,
        Event::LspClientDiagnostics => "🔍"@,
        Event::InstallationUpdated => "📦"@,
        Event::IdeInstalled => "🖥️"@,
        Event::PermissionUpdated => "🔐"@,
        _ => "🔄"@,
    }
}

fn label(icon: &'static str, kind: &'static str, heading: &'static str) -> (r: EventLabel)
    ensures
        r.icon@ == icon@,
        r.kind@ == kind@,
        r.properties_heading@ == heading@,
{
    EventLabel { icon, kind, properties_heading: heading }
}

/// The title of an event; `None` for the kinds that have none (removed
/// parts, permission replies, server greetings).
pub fn event_label(e: &Event) -> (r: Option<EventLabel>)
    ensures
        match r {
            Some(l) => event_kind_name(*e) == Some(l.kind@) && l.properties_heading@
                == properties_heading(*e) && l.icon@ == event_icon(*e),
            None => event_kind_name(*e) is None,
        },
{
    match e {
        Event::MessageUpdated { .. } => Some(label("🔄", "MessageUpdated", "Properties")),
        Event::MessagePartUpdated { .. } => Some(label("🔄", "MessagePartUpdated", "Properties")),
        Event::MessageRemoved { .. } => Some(label("🗑️", "MessageRemoved", "Properties")),
        Event::SessionUpdated { .. } => Some(label("🔄", "SessionUpdated", "Properties")),
        Event::SessionDeleted { .. } => Some(label("🗑️", "SessionDeleted", "Properties")),
        Event::SessionError { .. } => Some(label("❌", "SessionError", "Error Properties")),
        Event::SessionIdle { .. } => Some(label("😴", "SessionIdle", "Properties")),
        Event::FileEdited => Some(label("📝", "FileEdited", "File Properties")),
        Event::FileWatcherUpdated => Some(label("👁️", "FileWatcherUpdated", "Watcher Properties")),
        Event::StorageWrite => Some(label("💾", "StorageWrite", "Storage Properties")),
        Event::LspClientDiagnostics => Some(label("🔍", "LspClientDiagnostics", "Diagnostics Properties")),
        Event::InstallationUpdated => Some(label("📦", "InstallationUpdated", "Installation Properties")),
        Event::IdeInstalled => Some(label("🖥️", "IdeInstalled", "IDE Properties")),
        Event::PermissionUpdated => Some(label("🔐", "PermissionUpdated", "Permission Properties")),
        _ => None,
    }
}

} // verus!
