//! Turning terminal input into messages, and choosing what to listen to.

use vstd::prelude::*;
use crate::ids::current_time_millis;
use crate::keys::{CONTROL, InputEvent, KeyCode, KeyPress, MouseKind, has_shift, shift_held};
use crate::messages::{Msg, Sub};
use crate::model::{
    AppModalState, ConnectionStatus, EventStreamState, Model, RepeatShortcutKey, within_window,
};
use crate::modal_selector::ModalSelectorEvent;
use crate::selectors::{MsgModalFileSelector, MsgModalSessionSelector};
use crate::text_input::MsgTextArea;

verus! {

/// Whether a repeat shortcut for `k` is armed at `now`.
pub open spec fn armed(m: Model, k: RepeatShortcutKey, now: u64) -> bool {
    m.repeat_shortcut_timeout matches Some(t) && t.key == k && within_window(t.started_at_ms, now)
}

/// Whether the main screen takes typing: no pop-up, or the "connected"
/// welcome.
pub open spec fn typing_state(s: AppModalState) -> bool {
    s is NoModal || s == AppModalState::Connecting(ConnectionStatus::Connected)
}

/// Whether `r` forwards `key` (rebuilt) to a selector, by state.
pub open spec fn forwarded_to_selector(s: AppModalState, key: KeyPress, r: Option<Msg>) -> bool {
    if s is ModalSessionSelect {
        r matches Some(
            Msg::ModalSessionSelector(
                MsgModalSessionSelector::Event(ModalSelectorEvent::KeyInput(k2)),
            ),
        ) && k2.code == key.code && k2.modifiers == key.modifiers
    } else {
        r matches Some(
            Msg::ModalFileSelector(MsgModalFileSelector::Event(ModalSelectorEvent::KeyInput(k2))),
        ) && k2.code == key.code && k2.modifiers == key.modifiers
    }
}

/// The message for a key press, at time `now` (the first rule that applies
/// wins): Ctrl+C and Ctrl+D quit when pressed twice, Ctrl+X arms the leader
/// key, which then opens the session list (`l`), switches inline mode (Tab)
/// or quits (`q`); on the main screen Enter submits (Shift+Enter adds a
/// line), Tab cycles modes, Esc twice aborts, Ctrl+R toggles verbosity,
/// Page Up/Down scroll, other keys type; Esc closes help and the session
/// list; selectors get their keys; on the connection screen `r` retries
/// and `q` quits.
pub open spec fn key_msg(m: Model, key: KeyPress, now: u64, r: Option<Msg>) -> bool {
    let code = key.code;
    let ctrl = key.modifiers == CONTROL;
    let leader = armed(m, RepeatShortcutKey::Leader, now);
    let s = m.state;
    if code == KeyCode::Char('c') && ctrl {
        r == Some(
            if armed(m, RepeatShortcutKey::CtrlC, now) {
                Msg::Quit
            } else {
                Msg::RepeatShortcutPressed(RepeatShortcutKey::CtrlC)
            },
        )
    } else if code == KeyCode::Char('d') && ctrl {
        r == Some(
            if armed(m, RepeatShortcutKey::CtrlD, now) {
                Msg::Quit
            } else {
                Msg::RepeatShortcutPressed(RepeatShortcutKey::CtrlD)
            },
        )
    } else if code == KeyCode::Char('x') && ctrl {
        r == Some(Msg::RepeatShortcutPressed(RepeatShortcutKey::Leader))
    } else if code == KeyCode::Char('l') && leader {
        r == Some(Msg::LeaderShowSessionSelector)
    } else if code == KeyCode::Tab && leader {
        r == Some(Msg::LeaderChangeInline)
    } else if code == KeyCode::Char('q') && leader {
        r == Some(Msg::Quit)
    } else if typing_state(s) && code == KeyCode::Enter {
        r == Some(
            if has_shift(key.modifiers) {
                Msg::TextArea(MsgTextArea::Newline)
            } else {
                Msg::SubmitTextInput
            },
        )
    } else if typing_state(s) && code == KeyCode::Tab {
        r == Some(Msg::CycleModeState)
    } else if s is NoModal && code == KeyCode::Esc {
        r == Some(
            if armed(m, RepeatShortcutKey::Esc, now) {
                Msg::SessionAbort
            } else {
                Msg::RepeatShortcutPressed(RepeatShortcutKey::Esc)
            },
        )
    } else if s is NoModal && code == KeyCode::Char('r') && ctrl {
        r == Some(Msg::ToggleVerbosity)
    } else if s is NoModal && code == KeyCode::PageUp {
        r == Some(Msg::ScrollMessageLog(-5i16))
    } else if s is NoModal && code == KeyCode::PageDown {
        r == Some(Msg::ScrollMessageLog(5i16))
    } else if typing_state(s) {
        r == Some(Msg::TextArea(MsgTextArea::KeyInput(key)))
    } else if (s is ModalHelp || s is ModalSessionSelect) && code == KeyCode::Esc {
        r == Some(Msg::ChangeState(AppModalState::NoModal))
    } else if s is ModalHelp {
        r is None
    } else if s is ModalSessionSelect || s is ModalFileSelect {
        forwarded_to_selector(s, key, r)
    } else if (s matches AppModalState::Connecting(ConnectionStatus::Error(_))) && code
        == KeyCode::Char('r') {
        r == Some(Msg::InitializeClient)
    } else if s == AppModalState::Connecting(ConnectionStatus::Disconnected) && code
        == KeyCode::Char('r') {
        r == (if m.connection_status is Disconnected {
            Some(Msg::InitializeClient)
        } else {
            None
        })
    } else if (s == AppModalState::Connecting(ConnectionStatus::Disconnected) || (s matches AppModalState::Connecting(
        ConnectionStatus::Error(_),
    ))) && code == KeyCode::Char('q') {
        r == Some(Msg::Quit)
    } else if s is Quit {
        r == Some(Msg::Quit)
    } else {
        r is None
    }
}

/// The message for a terminal event at time `now`: keys as above, mouse
/// wheel scrolls the log on the main screen, resizes are reported.
pub open spec fn input_msg(m: Model, e: InputEvent, now: u64, r: Option<Msg>) -> bool {
    match e {
        InputEvent::Key(key) => key_msg(m, key, now, r),
        InputEvent::Mouse(kind) => r == (if m.state is NoModal && kind == MouseKind::ScrollUp {
            Some(Msg::ScrollMessageLog(-1i16))
        } else if m.state is NoModal && kind == MouseKind::ScrollDown {
            Some(Msg::ScrollMessageLog(1i16))
        } else {
            None
        }),
        InputEvent::Resize(w, h) => r == Some(Msg::TerminalResize(w, h)),
        InputEvent::Other => r is None,
    }
}

fn is_typing_state(s: &AppModalState) -> (b: bool)
    ensures
        b == typing_state(*s),
{
    match s {
        AppModalState::NoModal | AppModalState::Connecting(ConnectionStatus::Connected) => true,
        _ => false,
    }
}

fn key_to_msg(key: KeyPress, model: &Model, now: u64) -> (r: Option<Msg>)
    ensures
        key_msg(*model, key, now, r),
{
    let code = key.code;
    let ctrl = key.modifiers == CONTROL;
    let leader = model.is_repeat_shortcut_timeout_active_at(RepeatShortcutKey::Leader, now);
    let typing = is_typing_state(&model.state);
    let main = match &model.state {
        AppModalState::NoModal => true,
        _ => false,
    };
    if code == KeyCode::Char('c') && ctrl {
        if model.is_repeat_shortcut_timeout_active_at(RepeatShortcutKey::CtrlC, now) {
            Some(Msg::Quit)
        } else {
            Some(Msg::RepeatShortcutPressed(RepeatShortcutKey::CtrlC))
        }
    } else if code == KeyCode::Char('d') && ctrl {
        if model.is_repeat_shortcut_timeout_active_at(RepeatShortcutKey::CtrlD, now) {
            Some(Msg::Quit)
        } else {
            Some(Msg::RepeatShortcutPressed(RepeatShortcutKey::CtrlD))
        }
    } else if code == KeyCode::Char('x') && ctrl {
        Some(Msg::RepeatShortcutPressed(RepeatShortcutKey::Leader))
    } else if code == KeyCode::Char('l') && leader {
        Some(Msg::LeaderShowSessionSelector)
    } else if code == KeyCode::Tab && leader {
        Some(Msg::LeaderChangeInline)
    } else if code == KeyCode::Char('q') && leader {
        Some(Msg::Quit)
    } else if typing && code == KeyCode::Enter {
        if shift_held(key.modifiers) {
            Some(Msg::TextArea(MsgTextArea::Newline))
        } else {
            Some(Msg::SubmitTextInput)
        }
    } else if typing && code == KeyCode::Tab {
        Some(Msg::CycleModeState)
    } else if main && code == KeyCode::Esc {
        if model.is_repeat_shortcut_timeout_active_at(RepeatShortcutKey::Esc, now) {
            Some(Msg::SessionAbort)
        } else {
            Some(Msg::RepeatShortcutPressed(RepeatShortcutKey::Esc))
        }
    } else if main && code == KeyCode::Char('r') && ctrl {
        Some(Msg::ToggleVerbosity)
    } else if main && code == KeyCode::PageUp {
        Some(Msg::ScrollMessageLog(-5))
    } else if main && code == KeyCode::PageDown {
        Some(Msg::ScrollMessageLog(5))
    } else if typing {
        Some(Msg::TextArea(MsgTextArea::KeyInput(key)))
    } else {
        let help = match &model.state {
            AppModalState::ModalHelp => true,
            _ => false,
        };
        let sessions = match &model.state {
            AppModalState::ModalSessionSelect => true,
            _ => false,
        };
        let files = match &model.state {
            AppModalState::ModalFileSelect => true,
            _ => false,
        };
        let failed = match &model.state {
            AppModalState::Connecting(ConnectionStatus::Error(_)) => true,
            _ => false,
        };
        let disconnected = match &model.state {
            AppModalState::Connecting(ConnectionStatus::Disconnected) => true,
            _ => false,
        };
        let quitting = match &model.state {
            AppModalState::Quit => true,
            _ => false,
        };
        if (help || sessions) && code == KeyCode::Esc {
            Some(Msg::ChangeState(AppModalState::NoModal))
        } else if help {
            None
        } else if sessions {
            let k2 = KeyPress { code: key.code, modifiers: key.modifiers };
            Some(
                Msg::ModalSessionSelector(
                    MsgModalSessionSelector::Event(ModalSelectorEvent::KeyInput(k2)),
                ),
            )
        } else if files {
            let k2 = KeyPress { code: key.code, modifiers: key.modifiers };
            Some(Msg::ModalFileSelector(MsgModalFileSelector::Event(ModalSelectorEvent::KeyInput(k2))))
        } else if failed && code == KeyCode::Char('r') {
            Some(Msg::InitializeClient)
        } else if disconnected && code == KeyCode::Char('r') {
            match &model.connection_status {
                ConnectionStatus::Disconnected => Some(Msg::InitializeClient),
                _ => None,
            }
        } else if (disconnected || failed) && code == KeyCode::Char('q') {
            Some(Msg::Quit)
        } else if quitting {
            Some(Msg::Quit)
        } else {
            None
        }
    }
}

/// The message for a terminal event at time `now` (milliseconds since the
/// Unix epoch).
pub fn crossterm_to_msg_at(event: InputEvent, model: &Model, now: u64) -> (r: Option<Msg>)
    ensures
        input_msg(*model, event, now, r),
{
    match event {
        InputEvent::Key(key) => key_to_msg(key, model, now),
        InputEvent::Mouse(kind) => {
            let main = match &model.state {
                AppModalState::NoModal => true,
                _ => false,
            };
            if main && kind == MouseKind::ScrollUp {
                Some(Msg::ScrollMessageLog(-1))
            } else if main && kind == MouseKind::ScrollDown {
                Some(Msg::ScrollMessageLog(1))
            } else {
                None
            }
        },
        InputEvent::Resize(width, height) => Some(Msg::TerminalResize(width, height)),
        InputEvent::Other => None,
    }
}

/// The message for a terminal event now.
pub fn crossterm_to_msg(event: InputEvent, model: &Model) -> (r: Option<Msg>)
    ensures
        exists|now: u64| #[trigger] input_msg(*model, event, now, r),
{
    let now = current_time_millis();
    crossterm_to_msg_at(event, model, now)
}

/// The input sources to listen to: keys and resizes unless quitting, and
/// the event stream while a ready session's stream is connected.
pub open spec fn subscriptions_spec(m: Model) -> Seq<Sub> {
    let base = if m.state is Quit {
        seq![]
    } else {
        seq![Sub::KeyboardInput, Sub::TerminalResize]
    };
    if m.session_ready() && m.event_stream_state is Connected {
        base.push(Sub::EventStream)
    } else {
        base
    }
}

/// The input sources to listen to.
pub fn subscriptions(model: &Model) -> (r: Vec<Sub>)
    ensures
        r@ == subscriptions_spec(*model),
{
    let mut subs: Vec<Sub> = Vec::new();
    match &model.state {
        AppModalState::Quit => {},
        _ => {
            subs.push(Sub::KeyboardInput);
            subs.push(Sub::TerminalResize);
        },
    }
    let connected = match &model.event_stream_state {
        EventStreamState::Connected(_) => true,
        _ => false,
    };
    if model.is_session_ready() && connected {
        subs.push(Sub::EventStream);
    }
    assert(subs@ =~= subscriptions_spec(*model));
    subs
}

} // verus!
