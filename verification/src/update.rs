//! The update function: how each message changes the model, and which
//! commands it asks the application to run.

use vstd::prelude::*;
use crate::client::OpenCodeClient;
use crate::error::{OpenCodeError, error_text};
use crate::ids::{IdPrefix, current_time_millis, is_id_shaped};
use crate::message_log::{MessageLog, log_lines, sat_sub, scroll_step_fits};
use crate::message_state::{
    ContainerView, containers_copy, in_session, loaded, msg_index, has_msg, updated_message,
    updated_part,
};
use crate::messages::{Cmd, CmdOrBatch, Msg};
use crate::model::{
    AppModalState, ConnectionStatus, EventStreamState, Model, PendingSessionInfo, SessionState,
    mode_agent, mode_name,
};
use crate::models::{
    File, Event, Message, Part, Session, SessionMessage, message_session_of, part_message_of,
    part_session_of,
};
use crate::text::{chars_of, push_str, string_from_chars, trim, trim_chars};
use crate::text_input::joined_lines;
use crate::keys::KeyCode;
use crate::modal_selector::{ModalSelectorEvent, ModalSelectorUpdate};
use crate::selectors::{FileData, FileSelector, MsgModalFileSelector, MsgModalSessionSelector, SessionData};

verus! {

/// One command.
pub open spec fn single(c: Cmd) -> CmdOrBatch<Cmd> {
    CmdOrBatch::Single(c)
}

/// The model shows the connection being made.
pub open spec fn connecting_post(old: Model, new: Model) -> bool {
    new == Model {
        connection_status: ConnectionStatus::Connecting,
        state: AppModalState::Connecting(ConnectionStatus::Connecting),
        ..old
    }
}

/// The model holds `client` and shows the connection made.
pub open spec fn connected_post(old: Model, new: Model, client: OpenCodeClient) -> bool {
    new == Model {
        client: Some(client),
        connection_status: ConnectionStatus::Connected,
        state: AppModalState::Connecting(ConnectionStatus::Connected),
        ..old
    }
}

/// The model shows a connection error with the given text, and nothing
/// else changed.
pub open spec fn error_shown(old: Model, new: Model, text: Seq<char>) -> bool {
    &&& new.connection_status matches ConnectionStatus::Error(m) && m@ == text
    &&& new.state matches AppModalState::Connecting(ConnectionStatus::Error(m)) && m@ == text
    &&& new == Model { connection_status: new.connection_status, state: new.state, ..old }
}

/// The log shows copies of the stored messages, scrolled to the bottom, and
/// keeps its cache consistent.
pub open spec fn log_refreshed(store: Seq<ContainerView>, log: MessageLog) -> bool {
    &&& log.wf()
    &&& containers_copy(store, log.containers_view())
    &&& log.vertical_view() == sat_sub(log_lines(log.containers_view()).len(), 1)
    &&& log.horizontal_view() == 0
}

/// The log shows the same messages, scrolled to the bottom.
pub open spec fn log_touched(old: MessageLog, new: MessageLog) -> bool {
    &&& new.wf()
    &&& new.containers_view() == old.containers_view()
    &&& new.vertical_view() == sat_sub(old.content_lines(), 1)
    &&& new.horizontal_view() == 0
}

/// The store is bound to session `id`: its messages are kept when it was
/// already, dropped otherwise.
pub open spec fn store_bound(old: Model, new: Model, id: Seq<char>) -> bool {
    &&& new.message_state.wf()
    &&& new.message_state.session_view() == Some(id)
    &&& old.message_state.session_view() == Some(id) ==> new.message_state.messages_view()
        == old.message_state.messages_view()
    &&& old.message_state.session_view() != Some(id) ==> new.message_state.messages_view()
        == Seq::<ContainerView>::empty()
}

/// Loading the session's messages and following its events.
pub open spec fn session_start_cmds(c: OpenCodeClient, id: Seq<char>, cmds: Seq<Cmd>) -> bool {
    &&& cmds.len() >= 2
    &&& cmds[0] matches Cmd::AsyncLoadSessionMessages(c0, s) && c0 == c && s@ == id
    &&& cmds[1] == Cmd::AsyncStartEventStream(c)
}

/// The session `s` is ready: the main screen shows it, the log is scrolled
/// down, the store is bound to it.
pub open spec fn session_ready_post(old: Model, new: Model, s: Session) -> bool {
    &&& new.state is NoModal
    &&& new.session_state == SessionState::Ready(s)
    &&& new.connection_status is SessionReady
    &&& log_touched(old.message_log, new.message_log)
    &&& store_bound(old, new, s.id@)
}

/// Reply to a session initialization.
pub open spec fn session_init_post(
    old: Model,
    new: Model,
    res: Result<Session, OpenCodeError>,
    r: CmdOrBatch<Cmd>,
) -> bool {
    match res {
        Ok(s) => {
            &&& session_ready_post(old, new, s)
            &&& new == Model {
                state: new.state,
                session_state: new.session_state,
                connection_status: new.connection_status,
                message_log: new.message_log,
                message_state: new.message_state,
                ..old
            }
            &&& match old.client {
                Some(c) => r matches CmdOrBatch::Batch(cmds) && cmds@.len() == 2
                    && session_start_cmds(c, s.id@, cmds@),
                None => r == single(Cmd::NoCmd),
            }
        },
        Err(e) => r == single(Cmd::NoCmd) && error_shown(
            old,
            new,
            "Failed to initialize session: "@ + error_text(e),
        ),
    }
}

fn owned(s: &str) -> (r: String)
    ensures
        r@ == s@,
{
    string_from_chars(chars_of(s).as_slice())
}

fn prefixed(prefix: &str, text: &String) -> (r: String)
    ensures
        r@ == prefix@ + text@,
{
    let mut v: Vec<char> = Vec::new();
    push_str(&mut v, prefix);
    push_str(&mut v, text.as_str());
    string_from_chars(v.as_slice())
}

fn transition_to_connecting(model: &mut Model)
    ensures
        connecting_post(*old(model), *final(model)),
{
    model.connection_status = ConnectionStatus::Connecting;
    model.state = AppModalState::Connecting(ConnectionStatus::Connecting);
}

fn transition_to_connected(model: &mut Model, client: OpenCodeClient)
    ensures
        connected_post(*old(model), *final(model), client),
{
    model.client = Some(client);
    model.connection_status = ConnectionStatus::Connected;
    model.state = AppModalState::Connecting(ConnectionStatus::Connected);
}

fn transition_to_error(model: &mut Model, message: String)
    ensures
        error_shown(*old(model), *final(model), message@),
{
    model.connection_status = ConnectionStatus::Error(message.clone());
    model.state = AppModalState::Connecting(ConnectionStatus::Error(message));
}

/// Shows the store's messages in the log.
fn refresh_log(model: &mut Model)
    requires
        old(model).wf(),
    ensures
        final(model).wf(),
        log_refreshed(old(model).message_state.messages_view(), final(model).message_log),
        *final(model) == (Model { message_log: final(model).message_log, ..*old(model) }),
{
    let containers = model.message_state.snapshot();
    model.message_log.set_message_containers(containers);
}

fn session_ready(model: &mut Model, session: Session) -> (r: CmdOrBatch<Cmd>)
    requires
        old(model).wf(),
    ensures
        final(model).wf(),
        session_init_post(*old(model), *final(model), Ok(session), r),
{
    let session_id = session.id.clone();
    model.state = AppModalState::NoModal;
    model.session_state = SessionState::Ready(session);
    model.connection_status = ConnectionStatus::SessionReady;
    model.message_log.touch_scroll();
    model.message_state.set_session_id(Some(session_id.clone()));
    match &model.client {
        Some(client) => {
            let mut cmds: Vec<Cmd> = Vec::new();
            cmds.push(Cmd::AsyncLoadSessionMessages(client.clone(), session_id));
            cmds.push(Cmd::AsyncStartEventStream(client.clone()));
            CmdOrBatch::Batch(cmds)
        },
        None => CmdOrBatch::Single(Cmd::NoCmd),
    }
}

fn session_init_failed(model: &mut Model, e: OpenCodeError) -> (r: CmdOrBatch<Cmd>)
    ensures
        session_init_post(*old(model), *final(model), Err(e), r),
{
    let text = prefixed("Failed to initialize session: ", &e.message());
    transition_to_error(model, text);
    CmdOrBatch::Single(Cmd::NoCmd)
}


/// Reply to the client discovery.
pub open spec fn client_connect_post(
    old: Model,
    new: Model,
    res: Result<OpenCodeClient, OpenCodeError>,
    r: CmdOrBatch<Cmd>,
) -> bool {
    match res {
        Ok(c) => connected_post(old, new, c) && r == single(Cmd::AsyncLoadModes(c)),
        Err(e) => r == single(Cmd::NoCmd) && error_shown(
            old,
            new,
            "Failed to connect to OpenCode server: "@ + error_text(e),
        ),
    }
}

/// Provider, model and mode as the model's settings give them.
pub open spec fn settings_of(
    m: Model,
    provider: String,
    model: String,
    mode: Option<String>,
) -> bool {
    &&& provider == m.sdk_provider
    &&& match mode_agent(m.modes, m.mode_state) {
        Some(a) => {
            &&& model == (match a.model {
                Some(x) => x,
                None => m.sdk_model,
            })
            &&& match mode {
                Some(x) => mode_name(m.mode_state) == Some(x@),
                None => mode_name(m.mode_state) is None,
            }
        },
        None => model == m.sdk_model && mode is None,
    }
}

/// Sending `text` as a new message of session `session_id` with a fresh
/// message id and the model's settings.
pub open spec fn send_cmd(m: Model, c: OpenCodeClient, session_id: Seq<char>, text: Seq<char>, cmd: Cmd) -> bool {
    cmd matches Cmd::AsyncSendUserMessage(c2, sid, mid, t, p, md, mode) && c2 == c && sid@
        == session_id && is_id_shaped(mid@, IdPrefix::Message) && t@ == text && settings_of(
        m,
        p,
        md,
        mode,
    )
}

/// Reply to creating a session with a first message: the session is ready
/// and the message is sent.
pub open spec fn session_create_post(
    old: Model,
    new: Model,
    res: Result<(Session, String), OpenCodeError>,
    r: CmdOrBatch<Cmd>,
) -> bool {
    match res {
        Ok((s, first)) => {
            &&& session_ready_post(old, new, s)
            &&& new.pending_first_message is None
            &&& match old.client {
                Some(c) => {
                    &&& !new.session_is_idle
                    &&& r matches CmdOrBatch::Batch(cmds) && cmds@.len() == 3 && session_start_cmds(
                        c,
                        s.id@,
                        cmds@,
                    ) && send_cmd(old, c, s.id@, first@, cmds@[2])
                    &&& new == Model {
                        state: new.state,
                        session_state: new.session_state,
                        connection_status: new.connection_status,
                        message_log: new.message_log,
                        message_state: new.message_state,
                        pending_first_message: None,
                        session_is_idle: false,
                        id_clock: new.id_clock,
                        ..old
                    }
                },
                None => {
                    &&& r == single(Cmd::NoCmd)
                    &&& new == Model {
                        state: new.state,
                        session_state: new.session_state,
                        connection_status: new.connection_status,
                        message_log: new.message_log,
                        message_state: new.message_state,
                        pending_first_message: None,
                        ..old
                    }
                },
            }
        },
        Err(e) => {
            &&& r == single(Cmd::NoCmd)
            &&& error_shown(
                Model { session_state: SessionState::Empty, pending_first_message: None, ..old },
                new,
                "Failed to create session: "@ + error_text(e),
            )
        },
    }
}

fn client_connect(model: &mut Model, res: Result<OpenCodeClient, OpenCodeError>) -> (r: CmdOrBatch<
    Cmd,
>)
    ensures
        client_connect_post(*old(model), *final(model), res, r),
{
    match res {
        Ok(client) => {
            let c = client.clone();
            transition_to_connected(model, client);
            CmdOrBatch::Single(Cmd::AsyncLoadModes(c))
        },
        Err(e) => {
            let text = prefixed("Failed to connect to OpenCode server: ", &e.message());
            transition_to_error(model, text);
            CmdOrBatch::Single(Cmd::NoCmd)
        },
    }
}

fn session_created_with_message(model: &mut Model, session: Session, first_message: String) -> (r:
    CmdOrBatch<Cmd>)
    requires
        old(model).wf(),
    ensures
        final(model).wf(),
        session_create_post(*old(model), *final(model), Ok((session, first_message)), r),
{
    let session_id = session.id.clone();
    model.state = AppModalState::NoModal;
    model.session_state = SessionState::Ready(session);
    model.connection_status = ConnectionStatus::SessionReady;
    model.message_log.touch_scroll();
    model.message_state.set_session_id(Some(session_id.clone()));
    model.pending_first_message = None;
    match &model.client {
        Some(client) => {
            let client = client.clone();
            let (provider_id, model_id, mode) = model.get_mode_and_model_settings();
            let message_id = model.id_clock.generate(IdPrefix::Message, false);
            model.session_is_idle = false;
            let mut cmds: Vec<Cmd> = Vec::new();
            cmds.push(Cmd::AsyncLoadSessionMessages(client.clone(), session_id.clone()));
            cmds.push(Cmd::AsyncStartEventStream(client.clone()));
            cmds.push(
                Cmd::AsyncSendUserMessage(
                    client,
                    session_id,
                    message_id,
                    first_message,
                    provider_id,
                    model_id,
                    mode,
                ),
            );
            CmdOrBatch::Batch(cmds)
        },
        None => CmdOrBatch::Single(Cmd::NoCmd),
    }
}

fn session_creation_failed(model: &mut Model, e: OpenCodeError) -> (r: CmdOrBatch<Cmd>)
    ensures
        session_create_post(*old(model), *final(model), Err(e), r),
{
    let text = prefixed("Failed to create session: ", &e.message());
    model.session_state = SessionState::Empty;
    model.pending_first_message = None;
    transition_to_error(model, text);
    CmdOrBatch::Single(Cmd::NoCmd)
}

/// A change of screen: entering the main screen without a ready session
/// prepares a new session instead; leaving the main screen clears the
/// input; entering it scrolls the log down.
pub open spec fn change_state_post(old: Model, new: Model, s: AppModalState, r: CmdOrBatch<Cmd>) -> bool {
    &&& r == single(Cmd::NoCmd)
    &&& if s is NoModal && !old.session_ready() {
        crate::model::new_session_prepared(old, new)
    } else if old.state is NoModal {
        &&& new.text_input_area.wf()
        &&& new.text_input_area.lines_view() == seq![Seq::<char>::empty()]
        &&& new.text_input_area.focused_view() == old.text_input_area.focused_view()
        &&& new.input_history@.len() == 0
        &&& new == Model {
            state: s,
            text_input_area: new.text_input_area,
            last_input: None,
            input_history: new.input_history,
            printed_to_stdout_count: 0,
            ..old
        }
    } else if s is NoModal {
        &&& log_touched(old.message_log, new.message_log)
        &&& new == Model { state: s, message_log: new.message_log, ..old }
    } else {
        new == Model { state: s, ..old }
    }
}

fn change_state(model: &mut Model, new_state: AppModalState) -> (r: CmdOrBatch<Cmd>)
    requires
        old(model).wf(),
    ensures
        final(model).wf(),
        change_state_post(*old(model), *final(model), new_state, r),
{
    let entering_main = match &new_state {
        AppModalState::NoModal => true,
        _ => false,
    };
    if entering_main && !model.is_session_ready() {
        model.change_session(Some(0));
        return CmdOrBatch::Single(Cmd::NoCmd);
    }
    let was_main = match &model.state {
        AppModalState::NoModal => true,
        _ => false,
    };
    model.state = new_state;
    if was_main {
        model.clear_input_state();
    } else if entering_main {
        model.message_log.touch_scroll();
    }
    CmdOrBatch::Single(Cmd::NoCmd)
}


/// Position of the first session with id `id`.
pub open spec fn session_position(sessions: Seq<Session>, id: Seq<char>) -> Option<int>
    decreases sessions.len(),
{
    if sessions.len() == 0 {
        None
    } else if sessions[0].id@ == id {
        Some(0)
    } else {
        match session_position(sessions.drop_first(), id) {
            Some(k) => Some(k + 1),
            None => None,
        }
    }
}

/// The entry of the ready session in the session list (entry 0 creates a
/// session).
pub open spec fn current_entry(sessions: Seq<Session>, ready: Option<Session>) -> Option<usize> {
    match ready {
        Some(s) => match session_position(sessions, s.id@) {
            Some(k) => Some((k + 1) as usize),
            None => None,
        },
        None => None,
    }
}

/// The repeat shortcut with the leader key disarmed.
pub open spec fn leader_cleared(t: Option<crate::model::RepeatShortcutTimeout>) -> Option<
    crate::model::RepeatShortcutTimeout,
> {
    match t {
        Some(x) => if x.key == crate::model::RepeatShortcutKey::Leader {
            None
        } else {
            Some(x)
        },
        None => None,
    }
}

fn find_session(sessions: &Vec<Session>, id: &String) -> (r: Option<usize>)
    ensures
        match r {
            Some(k) => session_position(sessions@, id@) == Some(k as int) && k < sessions@.len(),
            None => session_position(sessions@, id@) is None,
        },
{
    let mut i: usize = 0;
    assert(sessions@.skip(0) =~= sessions@);
    while i < sessions.len()
        invariant
            i <= sessions@.len(),
            forall|k: int| 0 <= k < i ==> sessions@[k].id@ != id@,
            session_position(sessions@, id@) == match session_position(sessions@.skip(i as int), id@) {
                Some(k) => Some(k + i),
                None => None::<int>,
            },
        decreases sessions.len() - i,
    {
        assert(sessions@.skip(i as int).drop_first() =~= sessions@.skip(i + 1));
        assert(sessions@.skip(i as int)[0] == sessions@[i as int]);
        if crate::models::string_eq(&sessions[i].id, id) {
            return Some(i);
        }
        i = i + 1;
    }
    None
}

fn current_entry_exec(model: &Model) -> (r: Option<usize>)
    ensures
        r == current_entry(model.sessions@, model.ready_session()),
{
    match model.session() {
        Some(current) => match find_session(&model.sessions, &current.id) {
            Some(pos) => {
                let n = model.sessions.len();
                assert(pos < n);
                Some(pos + 1)
            },
            None => None,
        },
        None => None,
    }
}

/// Opening the session list: the leader key is disarmed, the list shows
/// with the ready session marked, and sessions and modes are requested (an
/// error shows instead without a client).
pub open spec fn show_selector_post(old: Model, new: Model, r: CmdOrBatch<Cmd>) -> bool {
    let m0 = old.modal_session_selector.modal_view();
    let m1 = new.modal_session_selector.modal_view();
    &&& new.state is ModalSessionSelect
    &&& new.repeat_shortcut_timeout == leader_cleared(old.repeat_shortcut_timeout)
    &&& new.modal_session_selector.current_view() == current_entry(old.sessions@, old.ready_session())
    &&& match old.client {
        Some(c) => {
            &&& m1 == (crate::modal_selector::ModalSelector { is_visible: true, ..m0 })
            &&& r matches CmdOrBatch::Batch(cmds) && cmds@ == seq![
                Cmd::AsyncLoadSessions(c),
                Cmd::AsyncLoadModes(c),
            ]
        },
        None => {
            &&& m1.error matches Some(e) && e@ == "No client connection"@
            &&& m1 == (crate::modal_selector::ModalSelector {
                is_visible: true,
                error: m1.error,
                loading: false,
                ..m0
            })
            &&& r == single(Cmd::NoCmd)
        },
    }
    &&& new == Model {
        state: new.state,
        repeat_shortcut_timeout: new.repeat_shortcut_timeout,
        modal_session_selector: new.modal_session_selector,
        ..old
    }
}

fn show_session_selector(model: &mut Model) -> (r: CmdOrBatch<Cmd>)
    ensures
        show_selector_post(*old(model), *final(model), r),
{
    model.clear_repeat_leader_timeout();
    model.state = AppModalState::ModalSessionSelect;
    let current_index = current_entry_exec(model);
    model.modal_session_selector.set_current_session_index(current_index);
    model.modal_session_selector.handle_event(crate::modal_selector::ModalSelectorEvent::Show);
    match &model.client {
        Some(client) => {
            let mut cmds: Vec<Cmd> = Vec::new();
            cmds.push(Cmd::AsyncLoadSessions(client.clone()));
            cmds.push(Cmd::AsyncLoadModes(client.clone()));
            assert(cmds@ =~= seq![Cmd::AsyncLoadSessions(*client), Cmd::AsyncLoadModes(*client)]);
            CmdOrBatch::Batch(cmds)
        },
        None => {
            model.modal_session_selector.handle_event(
                crate::modal_selector::ModalSelectorEvent::SetError(Some(owned("No client connection"))),
            );
            CmdOrBatch::Single(Cmd::NoCmd)
        },
    }
}


/// The session list's entries: the "create" entry, then each session by
/// title, the current one marked.
pub open spec fn session_items_ok(
    items: Seq<SessionData>,
    sessions: Seq<Session>,
    cur: Option<usize>,
) -> bool {
    &&& items.len() == sessions.len() + 1
    &&& items[0].session is None
    &&& items[0].display_text@ == "Create New Session"@
    &&& !items[0].is_current
    &&& forall|i: int|
        0 <= i < sessions.len() ==> {
            &&& (#[trigger] items[i + 1]).session == Some(sessions[i])
            &&& items[i + 1].display_text == sessions[i].title
            &&& items[i + 1].is_current == (cur == Some((i + 1) as usize))
        }
}

/// Reply to loading the sessions.
pub open spec fn sessions_load_post(
    old: Model,
    new: Model,
    res: Result<Vec<Session>, OpenCodeError>,
    r: CmdOrBatch<Cmd>,
) -> bool {
    let m0 = old.modal_session_selector.modal_view();
    let m1 = new.modal_session_selector.modal_view();
    &&& r == single(Cmd::NoCmd)
    &&& match res {
        Ok(ss) => {
            let cur = current_entry(ss@, old.ready_session());
            &&& new.sessions == ss
            &&& new.modal_session_selector.current_view() == cur
            &&& m1 == crate::modal_selector::with_items(m0, m1.items)
            &&& session_items_ok(m1.items@, ss@, cur)
            &&& new == Model { sessions: ss, modal_session_selector: new.modal_session_selector, ..old }
        },
        Err(e) => {
            &&& m1.error matches Some(x) && x@ == "Failed to load sessions: "@ + error_text(e)
            &&& m1 == (crate::modal_selector::ModalSelector { error: m1.error, loading: false, ..m0 })
            &&& new.modal_session_selector.current_view() == old.modal_session_selector.current_view()
            &&& new == Model { modal_session_selector: new.modal_session_selector, ..old }
        },
    }
}

fn sessions_loaded(model: &mut Model, sessions: Vec<Session>) -> (r: CmdOrBatch<Cmd>)
    ensures
        sessions_load_post(*old(model), *final(model), Ok(sessions), r),
{
    model.sessions = sessions;
    let cur = current_entry_exec(model);
    let mut items: Vec<SessionData> = Vec::new();
    items.push(SessionData::new_session());
    let n = model.sessions.len();
    let mut i: usize = 0;
    while i < n
        invariant
            n == model.sessions@.len(),
            i <= n,
            items@.len() == i + 1,
            items@[0].session is None,
            items@[0].display_text@ == "Create New Session"@,
            !items@[0].is_current,
            forall|k: int|
                0 <= k < i ==> {
                    &&& (#[trigger] items@[k + 1]).session == Some(model.sessions@[k])
                    &&& items@[k + 1].display_text == model.sessions@[k].title
                    &&& items@[k + 1].is_current == (cur == Some((k + 1) as usize))
                },
        decreases n - i,
    {
        let is_current = match cur {
            Some(c) => c == i + 1,
            None => false,
        };
        items.push(SessionData::from_session(&model.sessions[i], is_current));
        i = i + 1;
    }
    model.modal_session_selector.handle_event(crate::modal_selector::ModalSelectorEvent::SetItems(items));
    model.modal_session_selector.set_current_session_index(cur);
    CmdOrBatch::Single(Cmd::NoCmd)
}

fn sessions_load_failed(model: &mut Model, e: OpenCodeError) -> (r: CmdOrBatch<Cmd>)
    ensures
        sessions_load_post(*old(model), *final(model), Err(e), r),
{
    let text = prefixed("Failed to load sessions: ", &e.message());
    model.modal_session_selector.handle_event(
        crate::modal_selector::ModalSelectorEvent::SetError(Some(text)),
    );
    CmdOrBatch::Single(Cmd::NoCmd)
}

/// Whether `idx` names an existing session's entry.
pub open spec fn valid_entry(m: Model, idx: Option<usize>) -> bool {
    idx matches Some(i) && i > 0 && i - 1 < m.sessions@.len()
}

/// Choosing entry `idx` of the session list: with a client, entry 0
/// prepares a new session and an existing session's entry starts its
/// initialization; otherwise the main screen is shown.
pub open spec fn choose_entry_post(old: Model, new: Model, idx: Option<usize>, r: CmdOrBatch<Cmd>) -> bool {
    match old.client {
        Some(c) => if idx == Some(0usize) {
            crate::model::new_session_prepared(old, new) && r == single(Cmd::NoCmd)
        } else if valid_entry(old, idx) {
            crate::model::existing_session_chosen(old, new, idx) && r == single(
                Cmd::AsyncSpawnSessionInit(c),
            )
        } else {
            new == Model { state: AppModalState::NoModal, ..old } && r == single(Cmd::NoCmd)
        },
        None => new == Model { state: AppModalState::NoModal, ..old } && r == single(Cmd::NoCmd),
    }
}

/// The entry a list item stands for.
pub open spec fn entry_of(m: Model, d: SessionData) -> Option<usize> {
    match d.session {
        None => Some(0usize),
        Some(s) => match session_position(m.sessions@, s.id@) {
            Some(k) => Some((k + 1) as usize),
            None => None,
        },
    }
}

/// The item a selector's selection stands on, when it is within the items.
pub open spec fn selected_of<T>(m: crate::modal_selector::ModalSelector<T>) -> Option<T> {
    match m.state.selected {
        Some(i) => if i < m.items@.len() {
            Some(m.items@[i as int])
        } else {
            None
        },
        None => None,
    }
}

/// A message for the session list.
pub open spec fn session_selector_post(
    old: Model,
    new: Model,
    msg: MsgModalSessionSelector,
    r: CmdOrBatch<Cmd>,
) -> bool {
    let m0 = old.modal_session_selector.modal_view();
    match msg {
        MsgModalSessionSelector::Event(ev) => match ev {
            ModalSelectorEvent::KeyInput(k) => if k.code == KeyCode::Esc {
                new == Model { state: AppModalState::NoModal, ..old } && r == single(Cmd::NoCmd)
            } else if k.code == KeyCode::Enter {
                match selected_of(m0) {
                    Some(d) => choose_entry_post(old, new, entry_of(old, d), r),
                    None => new == old && r == single(Cmd::NoCmd),
                }
            } else {
                &&& new.modal_session_selector.modal_view() == crate::modal_selector::after_key(
                    m0,
                    k.code,
                )
                &&& new.modal_session_selector.current_view()
                    == old.modal_session_selector.current_view()
                &&& new == Model { modal_session_selector: new.modal_session_selector, ..old }
                &&& r == single(Cmd::NoCmd)
            },
            _ => {
                &&& new.modal_session_selector.modal_view() == crate::modal_selector::after_event(
                    m0,
                    ev,
                )
                &&& new.modal_session_selector.current_view()
                    == old.modal_session_selector.current_view()
                &&& new == Model { modal_session_selector: new.modal_session_selector, ..old }
                &&& r == single(Cmd::NoCmd)
            },
        },
        MsgModalSessionSelector::SessionSelected(i) => choose_entry_post(old, new, Some(i), r),
        MsgModalSessionSelector::CreateNew => choose_entry_post(old, new, Some(0usize), r),
        MsgModalSessionSelector::Cancel => new == Model { state: AppModalState::NoModal, ..old }
            && r == single(Cmd::NoCmd),
    }
}

fn choose_entry(model: &mut Model, idx: Option<usize>) -> (r: CmdOrBatch<Cmd>)
    requires
        old(model).wf(),
    ensures
        final(model).wf(),
        choose_entry_post(*old(model), *final(model), idx, r),
{
    match &model.client {
        Some(client) => {
            let c = client.clone();
            if model.change_session(idx) {
                return CmdOrBatch::Single(Cmd::AsyncSpawnSessionInit(c));
            }
        },
        None => {},
    }
    model.state = AppModalState::NoModal;
    CmdOrBatch::Single(Cmd::NoCmd)
}

fn update_session_selector(model: &mut Model, msg: MsgModalSessionSelector) -> (r: CmdOrBatch<Cmd>)
    requires
        old(model).wf(),
    ensures
        final(model).wf(),
        session_selector_post(*old(model), *final(model), msg, r),
{
    match msg {
        MsgModalSessionSelector::Event(event) => {
            let upd = model.modal_session_selector.handle_event(event);
            match upd {
                ModalSelectorUpdate::Hide => {
                    model.state = AppModalState::NoModal;
                    CmdOrBatch::Single(Cmd::NoCmd)
                },
                ModalSelectorUpdate::ItemSelected(data) => {
                    let idx = match &data.session {
                        None => Some(0),
                        Some(s) => match find_session(&model.sessions, &s.id) {
                            Some(k) => {
                                let n = model.sessions.len();
                                assert(k < n);
                                Some(k + 1)
                            },
                            None => None,
                        },
                    };
                    choose_entry(model, idx)
                },
                ModalSelectorUpdate::NoChange => CmdOrBatch::Single(Cmd::NoCmd),
            }
        },
        MsgModalSessionSelector::SessionSelected(index) => choose_entry(model, Some(index)),
        MsgModalSessionSelector::CreateNew => choose_entry(model, Some(0)),
        MsgModalSessionSelector::Cancel => {
            model.state = AppModalState::NoModal;
            CmdOrBatch::Single(Cmd::NoCmd)
        },
    }
}


/// `s` without its trailing `@` characters (`trim_end_matches("@")`).
pub open spec fn strip_trailing_at(s: Seq<char>) -> Seq<char>
    decreases s.len(),
{
    if s.len() > 0 && s.last() == '@' {
        strip_trailing_at(s.drop_last())
    } else {
        s
    }
}

/// The input text after choosing `path`: it replaces a trailing `@`
/// mention, or is appended.
pub open spec fn with_path(text: Seq<char>, path: Seq<char>) -> Seq<char> {
    if text.len() > 0 && text.last() == '@' {
        strip_trailing_at(text) + path
    } else {
        text + path
    }
}

/// The chosen path is put in the input box and the main screen is shown.
pub open spec fn path_inserted_post(old: Model, new: Model, path: Seq<char>) -> bool {
    let t = with_path(joined_lines(old.text_input_area.lines_view()), path);
    &&& new.text_input_area.lines_view() == crate::text_input::content_lines(t)
    &&& new.text_input_area.height_view() == crate::text_input::required_height(
        crate::text_input::content_lines(t).len(),
        old.text_input_area.min_view(),
        old.text_input_area.max_view(),
    )
    &&& new.text_input_area.wf() == old.text_input_area.wf()
    &&& new.text_input_area.focused_view() == old.text_input_area.focused_view()
    &&& new == Model {
        text_input_area: new.text_input_area,
        state: AppModalState::NoModal,
        ..old
    }
}

/// A message for the file list.
pub open spec fn file_selector_post(
    old: Model,
    new: Model,
    msg: MsgModalFileSelector,
    r: CmdOrBatch<Cmd>,
) -> bool {
    let m0 = old.modal_file_selector.modal;
    &&& r == single(Cmd::NoCmd)
    &&& match msg {
        MsgModalFileSelector::Event(ev) => match ev {
            ModalSelectorEvent::KeyInput(k) => if k.code == KeyCode::Esc {
                new == Model { state: AppModalState::NoModal, ..old }
            } else if k.code == KeyCode::Enter {
                match selected_of(m0) {
                    Some(d) => path_inserted_post(old, new, d.file.path@),
                    None => new == old,
                }
            } else {
                new == Model {
                    modal_file_selector: FileSelector {
                        modal: crate::modal_selector::after_key(m0, k.code),
                    },
                    ..old
                }
            },
            _ => new == Model {
                modal_file_selector: FileSelector {
                    modal: crate::modal_selector::after_event(m0, ev),
                },
                ..old
            },
        },
        MsgModalFileSelector::FileSelected(f) => path_inserted_post(old, new, f.path@),
        MsgModalFileSelector::Cancel => new == Model { state: AppModalState::NoModal, ..old },
    }
}

fn strip_trailing_at_exec(s: &[char]) -> (r: Vec<char>)
    ensures
        r@ == strip_trailing_at(s@),
{
    let mut j: usize = s.len();
    assert(s@.take(j as int) =~= s@);
    while j > 0 && s[j - 1] == '@'
        invariant
            j <= s@.len(),
            strip_trailing_at(s@) == strip_trailing_at(s@.take(j as int)),
        decreases j,
    {
        assert(s@.take(j as int).drop_last() =~= s@.take(j - 1));
        j = j - 1;
    }
    assert(s@.take(j as int).len() == 0 || s@.take(j as int).last() != '@');
    crate::text::sub_chars(s, 0, j)
}

fn insert_path(model: &mut Model, path: &String)
    requires
        old(model).wf(),
    ensures
        final(model).wf(),
        path_inserted_post(*old(model), *final(model), path@),
{
    let current = model.text_input_area.content();
    let cc = chars_of(current.as_str());
    let mut new_text: Vec<char> = if cc.len() > 0 && cc[cc.len() - 1] == '@' {
        strip_trailing_at_exec(cc.as_slice())
    } else {
        cc
    };
    push_str(&mut new_text, path.as_str());
    let t = string_from_chars(new_text.as_slice());
    model.text_input_area.set_content(t.as_str());
    model.state = AppModalState::NoModal;
}

fn update_file_selector(model: &mut Model, msg: MsgModalFileSelector) -> (r: CmdOrBatch<Cmd>)
    requires
        old(model).wf(),
    ensures
        final(model).wf(),
        file_selector_post(*old(model), *final(model), msg, r),
{
    match msg {
        MsgModalFileSelector::Event(event) => {
            let upd = model.modal_file_selector.modal.handle_event(event);
            match upd {
                ModalSelectorUpdate::Hide => {
                    model.state = AppModalState::NoModal;
                },
                ModalSelectorUpdate::ItemSelected(file_data) => {
                    insert_path(model, &file_data.file.path);
                },
                ModalSelectorUpdate::NoChange => {},
            }
        },
        MsgModalFileSelector::FileSelected(file) => {
            insert_path(model, &file.path);
        },
        MsgModalFileSelector::Cancel => {
            model.state = AppModalState::NoModal;
        },
    }
    CmdOrBatch::Single(Cmd::NoCmd)
}

/// Reply to loading the files' statuses: they are kept and listed in the
/// file selector.
pub open spec fn file_status_post(
    old: Model,
    new: Model,
    res: Result<Vec<File>, OpenCodeError>,
    r: CmdOrBatch<Cmd>,
) -> bool {
    let m1 = new.modal_file_selector.modal;
    &&& r == single(Cmd::NoCmd)
    &&& match res {
        Ok(files) => {
            &&& new.file_status == files
            &&& m1 == crate::modal_selector::with_items(old.modal_file_selector.modal, m1.items)
            &&& m1.items@.len() == files@.len()
            &&& forall|i: int| 0 <= i < files@.len() ==> #[trigger] m1.items@[i].file == files@[i]
            &&& new == Model {
                file_status: files,
                modal_file_selector: new.modal_file_selector,
                ..old
            }
        },
        Err(_) => new == old,
    }
}

fn files_loaded(model: &mut Model, files: Vec<File>) -> (r: CmdOrBatch<Cmd>)
    ensures
        file_status_post(*old(model), *final(model), Ok(files), r),
{
    let mut copy: Vec<File> = Vec::new();
    let mut i: usize = 0;
    while i < files.len()
        invariant
            i <= files@.len(),
            copy@.len() == i,
            forall|k: int| 0 <= k < i ==> #[trigger] copy@[k] == files@[k],
        decreases files.len() - i,
    {
        copy.push(files[i].clone());
        i = i + 1;
    }
    model.modal_file_selector.set_files(copy);
    model.file_status = files;
    CmdOrBatch::Single(Cmd::NoCmd)
}


/// The input box is emptied (its focus and bounds kept).
pub open spec fn input_cleared(old: Model, new: Model) -> bool {
    &&& new.text_input_area.lines_view() == seq![Seq::<char>::empty()]
    &&& new.text_input_area.height_view() == old.text_input_area.min_view()
    &&& new.text_input_area.wf() == old.text_input_area.wf()
    &&& new.text_input_area.focused_view() == old.text_input_area.focused_view()
}

/// Submitting the input: the trimmed text is recorded; then it creates the
/// pending session with this first message, or is sent in the ready
/// session (emptying the box in both cases), or nothing more happens.
pub open spec fn submit_post(old: Model, new: Model, r: CmdOrBatch<Cmd>) -> bool {
    let text = trim(joined_lines(old.text_input_area.lines_view()));
    &&& new.input_history@.len() == old.input_history@.len() + 1
    &&& new.input_history@.drop_last() == old.input_history@
    &&& new.input_history@.last()@ == text
    &&& new.last_input matches Some(l) && l@ == text
    &&& match (old.session_state, old.client) {
        (SessionState::Pending(info), Some(c)) => {
            &&& new.session_state == SessionState::Creating(info)
            &&& new.pending_first_message matches Some(p) && p@ == text
            &&& !new.session_is_idle
            &&& input_cleared(old, new)
            &&& r matches CmdOrBatch::Single(Cmd::AsyncCreateSessionWithMessage(c2, t)) && c2 == c
                && t@ == text
            &&& new == Model {
                input_history: new.input_history,
                last_input: new.last_input,
                session_state: new.session_state,
                pending_first_message: new.pending_first_message,
                session_is_idle: false,
                text_input_area: new.text_input_area,
                ..old
            }
        },
        _ => match (old.client, old.ready_session()) {
            (Some(c), Some(s)) => {
                &&& !new.session_is_idle
                &&& input_cleared(old, new)
                &&& r matches CmdOrBatch::Single(cmd) && send_cmd(old, c, s.id@, text, cmd)
                &&& new == Model {
                    input_history: new.input_history,
                    last_input: new.last_input,
                    session_is_idle: false,
                    text_input_area: new.text_input_area,
                    id_clock: new.id_clock,
                    ..old
                }
            },
            _ => {
                &&& r == single(Cmd::NoCmd)
                &&& new == Model {
                    input_history: new.input_history,
                    last_input: new.last_input,
                    ..old
                }
            },
        },
    }
}

fn submit_text_input(model: &mut Model) -> (r: CmdOrBatch<Cmd>)
    requires
        old(model).wf(),
    ensures
        final(model).wf(),
        submit_post(*old(model), *final(model), r),
{
    let content = model.text_input_area.content();
    let cc = chars_of(content.as_str());
    let tc = trim_chars(cc.as_slice());
    let text = string_from_chars(tc.as_slice());
    model.input_history.push(text.clone());
    model.last_input = Some(text.clone());
    let pending: Option<PendingSessionInfo> = match &model.session_state {
        SessionState::Pending(info) => Some(info.clone()),
        _ => None,
    };
    match (pending, &model.client) {
        (Some(info), Some(client)) => {
            let c = client.clone();
            model.session_state = SessionState::Creating(info);
            model.pending_first_message = Some(text.clone());
            model.session_is_idle = false;
            model.text_input_area.clear();
            let ghost t0 = trim(joined_lines(old(model).text_input_area.lines_view()));
            assert(model.input_history@.len() == old(model).input_history@.len() + 1);
            assert(model.input_history@.drop_last() == old(model).input_history@);
            assert(model.input_history@.last()@ == t0);
            assert(input_cleared(*old(model), *model));
            assert(model.session_state == SessionState::Creating(info));
            return CmdOrBatch::Single(Cmd::AsyncCreateSessionWithMessage(c, text));
        },
        _ => {},
    }
    let target: Option<(OpenCodeClient, String)> = match (&model.client, model.session()) {
        (Some(client), Some(session)) => Some((client.clone(), session.id.clone())),
        _ => None,
    };
    match target {
        Some((client, session_id)) => {
            let (provider_id, model_id, mode) = model.get_mode_and_model_settings();
            let message_id = model.id_clock.generate(IdPrefix::Message, false);
            model.session_is_idle = false;
            model.text_input_area.clear();
            let ghost t0 = trim(joined_lines(old(model).text_input_area.lines_view()));
            assert(model.input_history@.drop_last() == old(model).input_history@);
            assert(model.input_history@.last()@ == t0);
            assert(input_cleared(*old(model), *model));
            CmdOrBatch::Single(
                Cmd::AsyncSendUserMessage(
                    client,
                    session_id,
                    message_id,
                    text,
                    provider_id,
                    model_id,
                    mode,
                ),
            )
        },
        None => {
            let ghost t0 = trim(joined_lines(old(model).text_input_area.lines_view()));
            assert(model.input_history@.drop_last() == old(model).input_history@);
            assert(model.input_history@.last()@ == t0);
            CmdOrBatch::Single(Cmd::NoCmd)
        },
    }
}


/// The store now holds `after` (same session); when `changed`, the log
/// shows copies of it, else the log is untouched.
pub open spec fn store_changed(old: Model, new: Model, after: Seq<ContainerView>, changed: bool) -> bool {
    &&& new.message_state.wf()
    &&& new.message_state.session_view() == old.message_state.session_view()
    &&& new.message_state.messages_view() == after
    &&& changed ==> log_refreshed(after, new.message_log)
    &&& !changed ==> new.message_log == old.message_log
    &&& new == Model {
        message_state: new.message_state,
        message_log: new.message_log,
        ..old
    }
}

/// Whether the ready session has id `id`.
pub open spec fn is_current_session(m: Model, id: Seq<char>) -> bool {
    m.ready_session() matches Some(s) && s.id@ == id
}

/// The sessions other than those with id `id`.
pub open spec fn without_session(sessions: Seq<Session>, id: Seq<char>) -> Seq<Session> {
    sessions.filter(|s: Session| s.id@ != id)
}

/// A server event.
pub open spec fn event_post(old: Model, new: Model, event: Event, now: u64) -> bool {
    let sv = old.message_state.session_view();
    let ms = old.message_state.messages_view();
    match event {
        Event::MessageUpdated { info } => {
            let changed = in_session(sv, message_session_of(info));
            store_changed(
                old,
                new,
                if changed {
                    updated_message(ms, info, now)
                } else {
                    ms
                },
                changed,
            )
        },
        Event::MessagePartUpdated { part } => {
            let changed = in_session(sv, part_session_of(part)) && has_msg(ms, part_message_of(part));
            store_changed(
                old,
                new,
                if changed {
                    updated_part(ms, msg_index(ms, part_message_of(part)), part, now)
                } else {
                    ms
                },
                changed,
            )
        },
        Event::MessageRemoved { session_id, message_id } => {
            let changed = in_session(sv, session_id@) && has_msg(ms, message_id@);
            store_changed(
                old,
                new,
                if changed {
                    ms.remove(msg_index(ms, message_id@))
                } else {
                    ms
                },
                changed,
            )
        },
        Event::SessionUpdated { info } => {
            &&& new.sessions@ == (match session_position(old.sessions@, info.id@) {
                Some(k) => old.sessions@.update(k, info),
                None => old.sessions@,
            })
            &&& new.session_state == (if is_current_session(old, info.id@) {
                SessionState::Ready(info)
            } else {
                old.session_state
            })
            &&& new == Model { sessions: new.sessions, session_state: new.session_state, ..old }
        },
        Event::SessionDeleted { info } => {
            &&& new.sessions@ == without_session(old.sessions@, info.id@)
            &&& if is_current_session(old, info.id@) {
                &&& new.session_state is Empty
                &&& new.message_state.wf()
                &&& new.message_state.messages_view().len() == 0
                &&& new.message_state.session_view() == sv
                &&& new.message_log.wf()
                &&& new.message_log.containers_view().len() == 0
                &&& new.message_log.vertical_view() == 0
                &&& new.message_log.horizontal_view() == 0
                &&& new.state == AppModalState::Connecting(ConnectionStatus::Connected)
                &&& new == Model {
                    sessions: new.sessions,
                    session_state: new.session_state,
                    message_state: new.message_state,
                    message_log: new.message_log,
                    state: new.state,
                    ..old
                }
            } else {
                new == Model { sessions: new.sessions, ..old }
            }
        },
        Event::SessionIdle { session_id } => if is_current_session(old, session_id@) {
            new == Model { session_is_idle: true, ..old }
        } else {
            new == old
        },
        Event::SessionError { session_id, error } => {
            let show = match session_id {
                Some(id) => is_current_session(old, id@),
                None => true,
            };
            if show {
                error_shown(
                    old,
                    new,
                    match error {
                        Some(e) => "Session error: "@ + e@,
                        None => "Unknown session error"@,
                    },
                )
            } else {
                new == old
            }
        },
        Event::ServerConnected => if old.connection_status is Error || old.connection_status
            is Disconnected {
            new == Model { connection_status: ConnectionStatus::Connected, ..old }
        } else {
            new == old
        },
        _ => new == old,
    }
}

fn is_current_exec(model: &Model, id: &String) -> (b: bool)
    ensures
        b == is_current_session(*model, id@),
{
    match model.session() {
        Some(s) => crate::models::string_eq(&s.id, id),
        None => false,
    }
}

fn remove_sessions_with_id(model: &mut Model, id: &String)
    ensures
        final(model).sessions@ == without_session(old(model).sessions@, id@),
        *final(model) == (Model { sessions: final(model).sessions, ..*old(model) }),
{
    let mut kept: Vec<Session> = Vec::new();
    let mut old_list: Vec<Session> = Vec::new();
    std::mem::swap(&mut old_list, &mut model.sessions);
    let ghost all = old_list@;
    let ghost idv = id@;
    let n = old_list.len();
    let mut i: usize = 0;
    reveal(Seq::filter);
    assert(without_session(all.take(0), idv) =~= Seq::<Session>::empty());
    assert(old_list@ =~= all.skip(0));
    while i < n
        invariant
            n == all.len(),
            i <= n,
            idv == id@,
            old_list@ == all.skip(i as int),
            kept@ == without_session(all.take(i as int), idv),
        decreases n - i,
    {
        proof {
            reveal(Seq::filter);
        }
        let s = old_list.remove(0);
        assert(old_list@ =~= all.skip(i + 1));
        assert(all.take(i + 1).drop_last() =~= all.take(i as int));
        assert(all.take(i + 1).last() == s);
        if !crate::models::string_eq(&s.id, id) {
            kept.push(s);
        }
        i = i + 1;
    }
    assert(all.take(n as int) =~= all);
    model.sessions = kept;
}

/// Applies a server event at time `now`.
fn handle_event_received(model: &mut Model, event: Event, now: u64) -> (r: Cmd)
    requires
        old(model).wf(),
    ensures
        final(model).wf(),
        r == Cmd::NoCmd,
        event_post(*old(model), *final(model), event, now),
{
    let mut updated = false;
    match event {
        Event::MessageUpdated { info } => {
            updated = model.message_state.update_message(info, now);
        },
        Event::MessagePartUpdated { part } => {
            updated = model.message_state.update_message_part(part, now);
        },
        Event::MessageRemoved { session_id, message_id } => {
            updated = model.message_state.remove_message(session_id.as_str(), message_id.as_str());
        },
        Event::SessionUpdated { info } => {
            match find_session(&model.sessions, &info.id) {
                Some(k) => {
                    model.sessions.set(k, info.clone());
                },
                None => {},
            }
            if is_current_exec(model, &info.id) {
                model.session_state = SessionState::Ready(info);
            }
        },
        Event::SessionDeleted { info } => {
            let current = is_current_exec(model, &info.id);
            remove_sessions_with_id(model, &info.id);
            if current {
                model.session_state = SessionState::Empty;
                model.message_state.clear();
                model.message_log.set_message_containers(Vec::new());
                model.state = AppModalState::Connecting(ConnectionStatus::Connected);
            }
        },
        Event::SessionIdle { session_id } => {
            if is_current_exec(model, &session_id) {
                model.session_is_idle = true;
            }
        },
        Event::SessionError { session_id, error } => {
            let show = match &session_id {
                Some(id) => is_current_exec(model, id),
                None => true,
            };
            if show {
                let text = match &error {
                    Some(e) => prefixed("Session error: ", e),
                    None => owned("Unknown session error"),
                };
                transition_to_error(model, text);
            }
        },
        Event::ServerConnected => {
            let recover = match &model.connection_status {
                ConnectionStatus::Error(_) | ConnectionStatus::Disconnected => true,
                _ => false,
            };
            if recover {
                model.connection_status = ConnectionStatus::Connected;
            }
        },
        _ => {},
    }
    if updated {
        refresh_log(model);
    }
    Cmd::NoCmd
}

/// An event stream error: the first one after connecting starts
/// reconnecting, up to three attempts; after that the stream has failed.
pub open spec fn stream_error_post(old: Model, new: Model, error: String, r: Cmd) -> bool {
    &&& match old.event_stream_state {
        EventStreamState::Connected(_) => new.event_stream_state == (EventStreamState::Reconnecting {
            attempt: 1,
            last_error: error,
        }) && r == Cmd::AsyncReconnectEventStream,
        EventStreamState::Reconnecting { attempt, .. } => if attempt < 3 {
            new.event_stream_state == (EventStreamState::Reconnecting {
                attempt: (attempt + 1) as u32,
                last_error: error,
            }) && r == Cmd::AsyncReconnectEventStream
        } else {
            new.event_stream_state == EventStreamState::Failed(error) && r == Cmd::NoCmd
        },
        _ => new.event_stream_state == EventStreamState::Failed(error) && r == Cmd::NoCmd,
    }
    &&& new == Model { event_stream_state: new.event_stream_state, ..old }
}

fn handle_event_stream_error(model: &mut Model, error: String) -> (r: Cmd)
    ensures
        stream_error_post(*old(model), *final(model), error, r),
{
    let next: Option<u32> = match &model.event_stream_state {
        EventStreamState::Connected(_) => Some(1),
        EventStreamState::Reconnecting { attempt, .. } => if *attempt < 3 {
            Some(*attempt + 1)
        } else {
            None
        },
        _ => None,
    };
    match next {
        Some(attempt) => {
            model.event_stream_state = EventStreamState::Reconnecting { attempt, last_error: error };
            Cmd::AsyncReconnectEventStream
        },
        None => {
            model.event_stream_state = EventStreamState::Failed(error);
            Cmd::NoCmd
        },
    }
}


/// What `update` owes for each message, at time `now`.
pub open spec fn update_post(old: Model, new: Model, msg: Msg, now: u64, r: CmdOrBatch<Cmd>) -> bool {
    match msg {
        Msg::ChangeState(s) => change_state_post(old, new, s, r),
        Msg::InitializeClient => connecting_post(old, new) && r == single(
            Cmd::AsyncSpawnClientDiscovery,
        ),
        Msg::ResponseClientConnect(res) => client_connect_post(old, new, res, r),
        Msg::ResponseSessionInit(res) => session_init_post(old, new, res, r),
        Msg::ResponseSessionCreateWithMessage(res) => session_create_post(old, new, res, r),
        Msg::Quit => new == Model { state: AppModalState::Quit, ..old } && r == single(Cmd::NoCmd),
        Msg::ScrollMessageLog(d) => {
            &&& r == single(Cmd::NoCmd)
            &&& new.message_log.wf()
            &&& new.message_log.containers_view() == old.message_log.containers_view()
            &&& new.message_log.horizontal_view() == old.message_log.horizontal_view()
            &&& new.message_log.vertical_view() == crate::message_log::clamp_scroll(
                old.message_log.vertical_view(),
                d,
                sat_sub(old.message_log.content_lines(), 10) as usize,
            )
            &&& new == Model { message_log: new.message_log, ..old }
        },
        Msg::ScrollMessageLogHorizontal(d) => {
            &&& r == single(Cmd::NoCmd)
            &&& new.message_log.wf()
            &&& new.message_log.containers_view() == old.message_log.containers_view()
            &&& new.message_log.vertical_view() == old.message_log.vertical_view()
            &&& new.message_log.horizontal_view() == crate::message_log::clamp_scroll(
                old.message_log.horizontal_view(),
                d,
                sat_sub(old.message_log.content_width(), 50) as usize,
            )
            &&& new == Model { message_log: new.message_log, ..old }
        },
        Msg::ValidateScrollPosition(h, w) => {
            &&& r == single(Cmd::NoCmd)
            &&& new.message_log.wf()
            &&& new.message_log.containers_view() == old.message_log.containers_view()
            &&& new.message_log.vertical_view() == crate::message_log::min_usize(
                old.message_log.vertical_view(),
                sat_sub(old.message_log.content_lines(), sat_sub(h as nat, 2)) as usize,
            )
            &&& new.message_log.horizontal_view() == crate::message_log::min_usize(
                old.message_log.horizontal_view(),
                sat_sub(old.message_log.content_width(), sat_sub(w as nat, 2)) as usize,
            )
            &&& new == Model { message_log: new.message_log, ..old }
        },
        Msg::TaskStarted(_, _) | Msg::TaskCompleted(_) | Msg::TaskFailed(_, _) => new == old && r
            == single(Cmd::NoCmd),
        Msg::MarkMessagesViewed => {
            let count = crate::message_state::stdout_texts(
                old.message_state.messages_view(),
            ).len();
            &&& r == single(Cmd::NoCmd)
            &&& if count > 0 {
                &&& new.message_state.wf()
                &&& new.message_state.messages_view() == crate::message_state::mark_printed(
                    old.message_state.messages_view(),
                    count,
                )
                &&& new.message_state.session_view() == old.message_state.session_view()
                &&& new == Model {
                    message_state: new.message_state,
                    printed_to_stdout_count: (old.printed_to_stdout_count + count) as usize,
                    ..old
                }
            } else {
                new == old
            }
        },
        Msg::TerminalResize(_, _) => new == old && r == single(Cmd::TerminalAutoResize),
        Msg::ChangeInlineHeight(h) => new == old && r == (if old.init.inline_view() {
            single(Cmd::TerminalResizeInlineViewport(h))
        } else {
            single(Cmd::NoCmd)
        }),
        Msg::LeaderChangeInline => new == Model {
            repeat_shortcut_timeout: leader_cleared(old.repeat_shortcut_timeout),
            ..old
        } && r == single(Cmd::TerminalRebootWithInline(!old.init.inline_view())),
        Msg::LeaderShowSessionSelector => show_selector_post(old, new, r),
        Msg::ModalSessionSelector(m) => session_selector_post(old, new, m, r),
        Msg::ModalFileSelector(m) => file_selector_post(old, new, m, r),
        Msg::ResponseSessionsLoad(res) => sessions_load_post(old, new, res, r),
        Msg::ResponseModesLoad(res) => r == single(Cmd::NoCmd) && match res {
            Ok(modes) => new == Model { modes: Some(modes), mode_state: Some(0u16), ..old },
            Err(_) => new == old,
        },
        Msg::CycleModeState => match old.modes {
            None => new == old && r == match old.client {
                Some(c) => single(Cmd::AsyncLoadModes(c)),
                None => single(Cmd::NoCmd),
            },
            Some(_) => new == Model {
                mode_state: crate::model::next_mode(old.mode_state),
                ..old
            } && r == single(Cmd::NoCmd),
        },
        Msg::ResponseSessionMessagesLoad(res) => r == single(Cmd::NoCmd) && match res {
            Ok(list) => store_changed(old, new, loaded(list@, now), true),
            Err(_) => new == old,
        },
        Msg::ResponseUserMessageSend(res) => r == single(Cmd::NoCmd) && match res {
            Ok(_) => new == Model { session_is_idle: false, ..old },
            Err(_) => new == old,
        },
        Msg::ResponseFileStatusesLoad(res) => file_status_post(old, new, res, r),
        Msg::EventReceived(event) => r == single(Cmd::NoCmd) && event_post(old, new, event, now),
        Msg::EventStreamConnected(h) => new == Model {
            event_stream_state: EventStreamState::Connected(h),
            ..old
        } && r == single(Cmd::NoCmd),
        Msg::EventStreamDisconnected => new == Model {
            event_stream_state: EventStreamState::Disconnected,
            ..old
        } && r == single(Cmd::NoCmd),
        Msg::EventStreamError(e) => match r {
            CmdOrBatch::Single(c) => stream_error_post(old, new, e, c),
            _ => false,
        },
        Msg::EventStreamReconnecting(attempt) => {
            &&& new.event_stream_state matches EventStreamState::Reconnecting {
                attempt: a,
                last_error: l,
            } && a == attempt && l@ == "Connection lost"@
            &&& new == Model { event_stream_state: new.event_stream_state, ..old }
            &&& r == single(Cmd::NoCmd)
        },
        Msg::RepeatShortcutPressed(key) => new == Model {
            repeat_shortcut_timeout: Some(
                crate::model::RepeatShortcutTimeout { key, started_at_ms: now },
            ),
            ..old
        } && r == single(Cmd::NoCmd),
        Msg::ClearTimeout => new == Model { repeat_shortcut_timeout: None, ..old } && r == single(
            Cmd::NoCmd,
        ),
        Msg::SessionAbort => new == old && r == single(Cmd::AsyncSessionAbort),
        Msg::ToggleVerbosity => new == Model {
            verbosity_level: crate::model::toggled(old.verbosity_level),
            ..old
        } && r == single(Cmd::NoCmd),
        Msg::TextArea(m) => r == single(Cmd::NoCmd) && crate::text_input::message_handled(
            old.text_input_area,
            new.text_input_area,
            m,
        ) && new == Model {
            text_input_area: new.text_input_area,
            ..old
        },
        Msg::RecordActiveTaskCount(n) => new == Model { active_task_count: n, ..old } && r
            == single(Cmd::NoCmd),
        Msg::SubmitTextInput => submit_post(old, new, r),
    }
}

/// What the application must check before handing `msg` to `update`:
/// scroll steps stay within `i16`, and the printed-message count within
/// `usize`.
pub open spec fn update_allowed(m: Model, msg: Msg) -> bool {
    match msg {
        Msg::ScrollMessageLog(d) => scroll_step_fits(m.message_log.vertical_view(), d),
        Msg::ScrollMessageLogHorizontal(d) => scroll_step_fits(m.message_log.horizontal_view(), d),
        Msg::MarkMessagesViewed => m.printed_to_stdout_count + crate::message_state::stdout_texts(
            m.message_state.messages_view(),
        ).len() <= usize::MAX,
        _ => true,
    }
}

/// Applies a message at time `now` (milliseconds since the Unix epoch) and
/// returns the commands to run.
pub fn update_at(model: &mut Model, msg: Msg, now: u64) -> (r: CmdOrBatch<Cmd>)
    requires
        old(model).wf(),
        update_allowed(*old(model), msg),
    ensures
        final(model).wf(),
        update_post(*old(model), *final(model), msg, now, r),
{
    match msg {
        Msg::ChangeState(new_state) => change_state(model, new_state),
        Msg::InitializeClient => {
            transition_to_connecting(model);
            CmdOrBatch::Single(Cmd::AsyncSpawnClientDiscovery)
        },
        Msg::ResponseClientConnect(res) => client_connect(model, res),
        Msg::ResponseSessionInit(res) => match res {
            Ok(session) => session_ready(model, session),
            Err(e) => session_init_failed(model, e),
        },
        Msg::ResponseSessionCreateWithMessage(res) => match res {
            Ok((session, first_message)) => session_created_with_message(model, session, first_message),
            Err(e) => session_creation_failed(model, e),
        },
        Msg::Quit => {
            model.state = AppModalState::Quit;
            CmdOrBatch::Single(Cmd::NoCmd)
        },
        Msg::ScrollMessageLog(direction) => {
            model.message_log.scroll_vertical(&direction);
            CmdOrBatch::Single(Cmd::NoCmd)
        },
        Msg::ScrollMessageLogHorizontal(direction) => {
            model.message_log.scroll_horizontal(direction);
            CmdOrBatch::Single(Cmd::NoCmd)
        },
        Msg::ValidateScrollPosition(viewport_height, viewport_width) => {
            model.message_log.validate_scroll_position(viewport_height, viewport_width);
            CmdOrBatch::Single(Cmd::NoCmd)
        },
        Msg::TaskStarted(_, _) | Msg::TaskCompleted(_) | Msg::TaskFailed(_, _) => CmdOrBatch::Single(
            Cmd::NoCmd,
        ),
        Msg::MarkMessagesViewed => {
            let texts = model.messages_needing_stdout_print();
            let count = texts.len();
            proof {
                assert(texts@.map_values(|s: String| s@).len() == texts@.len());
            }
            if count > 0 {
                model.mark_messages_printed_to_stdout(count);
            }
            CmdOrBatch::Single(Cmd::NoCmd)
        },
        Msg::TerminalResize(_, _) => CmdOrBatch::Single(Cmd::TerminalAutoResize),
        Msg::ChangeInlineHeight(new_height) => {
            if model.init.inline_mode() {
                CmdOrBatch::Single(Cmd::TerminalResizeInlineViewport(new_height))
            } else {
                CmdOrBatch::Single(Cmd::NoCmd)
            }
        },
        Msg::LeaderChangeInline => {
            let new_inline = !model.init.inline_mode();
            model.clear_repeat_leader_timeout();
            CmdOrBatch::Single(Cmd::TerminalRebootWithInline(new_inline))
        },
        Msg::LeaderShowSessionSelector => show_session_selector(model),
        Msg::ModalSessionSelector(submsg) => update_session_selector(model, submsg),
        Msg::ModalFileSelector(submsg) => update_file_selector(model, submsg),
        Msg::ResponseSessionsLoad(res) => match res {
            Ok(sessions) => sessions_loaded(model, sessions),
            Err(e) => sessions_load_failed(model, e),
        },
        Msg::ResponseModesLoad(res) => {
            match res {
                Ok(modes) => model.set_modes(modes),
                Err(_) => {},
            }
            CmdOrBatch::Single(Cmd::NoCmd)
        },
        Msg::CycleModeState => {
            if model.modes.is_none() {
                match &model.client {
                    Some(client) => CmdOrBatch::Single(Cmd::AsyncLoadModes(client.clone())),
                    None => CmdOrBatch::Single(Cmd::NoCmd),
                }
            } else {
                model.increment_mode_index();
                CmdOrBatch::Single(Cmd::NoCmd)
            }
        },
        Msg::ResponseSessionMessagesLoad(res) => {
            match res {
                Ok(messages) => {
                    model.message_state.load_messages(messages, now);
                    refresh_log(model);
                },
                Err(_) => {},
            }
            CmdOrBatch::Single(Cmd::NoCmd)
        },
        Msg::ResponseUserMessageSend(res) => {
            match res {
                Ok(_) => {
                    model.session_is_idle = false;
                },
                Err(_) => {},
            }
            CmdOrBatch::Single(Cmd::NoCmd)
        },
        Msg::ResponseFileStatusesLoad(res) => match res {
            Ok(files) => files_loaded(model, files),
            Err(_) => CmdOrBatch::Single(Cmd::NoCmd),
        },
        Msg::EventReceived(event) => {
            let cmd = handle_event_received(model, event, now);
            CmdOrBatch::Single(cmd)
        },
        Msg::EventStreamConnected(handle) => {
            model.event_stream_state = EventStreamState::Connected(handle);
            CmdOrBatch::Single(Cmd::NoCmd)
        },
        Msg::EventStreamDisconnected => {
            model.event_stream_state = EventStreamState::Disconnected;
            CmdOrBatch::Single(Cmd::NoCmd)
        },
        Msg::EventStreamError(error) => {
            let cmd = handle_event_stream_error(model, error);
            CmdOrBatch::Single(cmd)
        },
        Msg::EventStreamReconnecting(attempt) => {
            model.event_stream_state = EventStreamState::Reconnecting {
                attempt,
                last_error: owned("Connection lost"),
            };
            CmdOrBatch::Single(Cmd::NoCmd)
        },
        Msg::RepeatShortcutPressed(key) => {
            model.set_repeat_shortcut_timeout_at(key, now);
            CmdOrBatch::Single(Cmd::NoCmd)
        },
        Msg::ClearTimeout => {
            model.clear_repeat_shortcut_timeout();
            CmdOrBatch::Single(Cmd::NoCmd)
        },
        Msg::SessionAbort => CmdOrBatch::Single(Cmd::AsyncSessionAbort),
        Msg::ToggleVerbosity => {
            model.toggle_verbosity();
            CmdOrBatch::Single(Cmd::NoCmd)
        },
        Msg::TextArea(submsg) => {
            model.text_input_area.handle_message(submsg);
            CmdOrBatch::Single(Cmd::NoCmd)
        },
        Msg::RecordActiveTaskCount(count) => {
            model.active_task_count = count;
            CmdOrBatch::Single(Cmd::NoCmd)
        },
        Msg::SubmitTextInput => submit_text_input(model),
    }
}

/// Applies a message now and returns the commands to run.
pub fn update(model: &mut Model, msg: Msg) -> (r: CmdOrBatch<Cmd>)
    requires
        old(model).wf(),
        update_allowed(*old(model), msg),
    ensures
        final(model).wf(),
        exists|now: u64| #[trigger] update_post(*old(model), *final(model), msg, now, r),
{
    let now = current_time_millis();
    update_at(model, msg, now)
}


/// A stream error asks for a reconnection at most three times in a row:
/// the attempt count after an error is between one and three whenever a
/// reconnection is asked for, and after a third failed attempt the stream
/// is marked failed and nothing more is asked.
pub proof fn law_reconnect_attempts_bounded(old: Model, new: Model, error: String, r: Cmd)
    requires
        stream_error_post(old, new, error, r),
    ensures
        r == Cmd::AsyncReconnectEventStream <==> new.event_stream_state is Reconnecting,
        (new.event_stream_state matches EventStreamState::Reconnecting { attempt, .. } ==> 1
            <= attempt <= 3),
        ((old.event_stream_state matches EventStreamState::Reconnecting { attempt, .. } && attempt
            >= 3) ==> new.event_stream_state is Failed && r == Cmd::NoCmd),
        new == (Model { event_stream_state: new.event_stream_state, ..old }),
{
}

proof fn lemma_strip_trailing_at(s: Seq<char>)
    ensures
        strip_trailing_at(s).len() <= s.len(),
        s.take(strip_trailing_at(s).len() as int) == strip_trailing_at(s),
        forall|k: int| strip_trailing_at(s).len() <= k < s.len() ==> #[trigger] s[k] == '@',
        strip_trailing_at(s).len() == 0 || strip_trailing_at(s).last() != '@',
    decreases s.len(),
{
    if s.len() > 0 && s.last() == '@' {
        lemma_strip_trailing_at(s.drop_last());
        let r = strip_trailing_at(s.drop_last());
        assert(s.take(r.len() as int) =~= s.drop_last().take(r.len() as int));
        assert forall|k: int| r.len() <= k < s.len() implies #[trigger] s[k] == '@' by {
            if k < s.len() - 1 {
                assert(s[k] == s.drop_last()[k]);
            }
        }
    } else {
        assert(s.take(s.len() as int) =~= s);
    }
}

/// Choosing a file puts its path at the end of the input text, after the
/// text that was typed: the new text is the old text with its trailing `@`
/// characters removed, followed by the path. So the old text up to the `@`
/// mention is kept as a prefix, what is removed is only `@` characters, and
/// the kept part does not end in `@`.
pub proof fn law_chosen_path_follows_typed_text(text: Seq<char>, path: Seq<char>)
    ensures
        ({
            let t = with_path(text, path);
            let k = t.len() - path.len();
            &&& 0 <= k <= text.len()
            &&& t.skip(k) == path
            &&& t.take(k) == text.take(k)
            &&& forall|i: int| k <= i < text.len() ==> #[trigger] text[i] == '@'
            &&& (k == 0 || text[k - 1] != '@')
        }),
{
    lemma_strip_trailing_at(text);
    let r = strip_trailing_at(text);
    let t = with_path(text, path);
    if text.len() > 0 && text.last() == '@' {
        assert(t == r + path);
    } else {
        assert(r == text);
        assert(t == text + path);
    }
    assert(t.skip(r.len() as int) =~= path);
    assert(t.take(r.len() as int) =~= r);
    if r.len() > 0 {
        assert(text[r.len() - 1] == r.last());
    }
}

} // verus!
