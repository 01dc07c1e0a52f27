use opencoders::messages::{Cmd, CmdOrBatch, Msg};
use opencoders::model::{
    AppModalState, ConnectionStatus, EventStreamHandle, EventStreamState, Model, RepeatShortcutKey,
    SessionState, TimeoutType,
};
use opencoders::models::{AgentConfig, ConfigAgent, Session};
use opencoders::renderer::VerbosityLevel;
use opencoders::update::update_at;

fn session(id: &str, title: &str) -> Session {
    Session { id: id.to_string(), title: title.to_string() }
}

#[test]
fn new_model_defaults() {
    let m = Model::new();
    assert!(m.init.inline_mode());
    assert_eq!(m.state, AppModalState::Connecting(ConnectionStatus::Connecting));
    assert_eq!(m.sdk_provider, "anthropic");
    assert_eq!(m.sdk_model, "");
    assert_eq!(m.verbosity_level, VerbosityLevel::Summary);
    assert!(m.text_input_area.is_focused());
    assert!(m.client.is_none());
    assert!(!m.can_accept_input());
    assert!(m.current_session_id().is_none());
}

#[test]
fn toggle_verbosity_twice_restores() {
    let mut m = Model::new();
    m.toggle_verbosity();
    assert_eq!(m.verbosity_level, VerbosityLevel::Verbose);
    m.toggle_verbosity();
    assert_eq!(m.verbosity_level, VerbosityLevel::Summary);
}

#[test]
fn mode_cycle_returns_after_three_steps() {
    let mut m = Model::new();
    assert_eq!(m.get_current_mode_name(), None);
    m.increment_mode_index();
    assert_eq!(m.get_current_mode_name(), Some("build".to_string()));
    m.increment_mode_index();
    assert_eq!(m.get_current_mode_name(), Some("plan".to_string()));
    m.increment_mode_index();
    assert_eq!(m.get_current_mode_name(), Some("general".to_string()));
    m.increment_mode_index();
    assert_eq!(m.get_current_mode_name(), Some("build".to_string()));
    m.set_mode(7);
    m.increment_mode_index();
    assert_eq!(m.mode_state, Some(0));
}

#[test]
fn mode_and_model_settings_follow_selected_agent() {
    let mut m = Model::new();
    let (p, model, mode) = m.get_mode_and_model_settings();
    assert_eq!((p.as_str(), model.as_str(), mode), ("anthropic", "", None));
    m.set_modes(ConfigAgent {
        build: Some(AgentConfig { model: Some("gpt-x".to_string()), prompt: None }),
        plan: Some(AgentConfig { model: None, prompt: None }),
        general: None,
    });
    let (_, model, mode) = m.get_mode_and_model_settings();
    assert_eq!(model, "gpt-x");
    assert_eq!(mode, Some("build".to_string()));
    m.increment_mode_index();
    let (_, model, mode) = m.get_mode_and_model_settings();
    assert_eq!(model, "");
    assert_eq!(mode, Some("plan".to_string()));
    m.increment_mode_index();
    assert!(m.get_current_mode().is_none());
    let (_, model, mode) = m.get_mode_and_model_settings();
    assert_eq!(model, "");
    assert_eq!(mode, None);
}

#[test]
fn timeout_set_then_active_then_expired() {
    let mut m = Model::new();
    let tt = TimeoutType::DebounceFindFiles("src".to_string());
    m.set_timeout_at(tt.clone(), 300, 1_000);
    assert!(m.is_timeout_active_at(&tt, 1_000));
    assert!(m.is_timeout_active_at(&tt, 1_299));
    assert!(!m.is_timeout_active_at(&tt, 1_300));
    let expired = m.get_expired_timeouts_at(1_300);
    assert_eq!(expired, vec![tt.clone()]);
    assert!(m.active_timeouts.is_empty());
    // a second sweep at the same instant finds nothing
    assert!(m.get_expired_timeouts_at(1_300).is_empty());
}

#[test]
fn setting_a_debounce_replaces_the_previous_one() {
    let mut m = Model::new();
    m.set_timeout_at(TimeoutType::DebounceFindFiles("a".to_string()), 100, 0);
    m.set_timeout_at(TimeoutType::RepeatShortcut(RepeatShortcutKey::Esc), 100, 0);
    m.set_timeout_at(TimeoutType::DebounceFindFiles("b".to_string()), 100, 10);
    assert_eq!(m.active_timeouts.len(), 2);
    assert_eq!(m.active_timeouts[0].timeout_type, TimeoutType::RepeatShortcut(RepeatShortcutKey::Esc));
    assert_eq!(m.active_timeouts[1].timeout_type, TimeoutType::DebounceFindFiles("b".to_string()));
    assert_eq!(m.active_timeouts[1].started_at_ms, 10);
}

#[test]
fn cleared_timeout_is_inactive() {
    let mut m = Model::new();
    let tt = TimeoutType::RepeatShortcut(RepeatShortcutKey::CtrlC);
    m.set_timeout_at(tt.clone(), 500, 0);
    m.clear_timeout(&tt);
    assert!(!m.is_timeout_active_at(&tt, 1));
    assert!(m.active_timeouts.is_empty());
}

#[test]
fn repeat_shortcut_window_is_one_second() {
    let mut m = Model::new();
    m.set_repeat_shortcut_timeout_at(RepeatShortcutKey::CtrlC, 5_000);
    assert!(m.is_repeat_shortcut_timeout_active_at(RepeatShortcutKey::CtrlC, 5_999));
    assert!(!m.is_repeat_shortcut_timeout_active_at(RepeatShortcutKey::CtrlD, 5_500));
    assert!(!m.is_repeat_shortcut_timeout_active_at(RepeatShortcutKey::CtrlC, 6_000));
    assert!(!m.expire_timeout_if_needed_at(5_999));
    assert!(m.expire_timeout_if_needed_at(6_000));
    assert!(m.repeat_shortcut_timeout.is_none());
}

#[test]
fn leader_timeout_clears_only_leader() {
    let mut m = Model::new();
    m.set_repeat_shortcut_timeout_at(RepeatShortcutKey::Esc, 0);
    m.clear_repeat_leader_timeout();
    assert!(m.repeat_shortcut_timeout.is_some());
    m.set_repeat_shortcut_timeout_at(RepeatShortcutKey::Leader, 0);
    m.clear_repeat_leader_timeout();
    assert!(m.repeat_shortcut_timeout.is_none());
}

#[test]
fn switching_session_chooses_it() {
    let mut m = Model::new();
    m.sessions = vec![session("ses_a", "A"), session("ses_b", "B")];
    assert!(m.change_session(Some(2)));
    assert_eq!(m.current_session_id(), Some("ses_b".to_string()));
    assert_eq!(m.state, AppModalState::Connecting(ConnectionStatus::InitializingSession));
    // an entry past the list changes nothing
    assert!(!m.change_session(Some(3)));
    assert_eq!(m.current_session_id(), Some("ses_b".to_string()));
}

#[test]
fn new_session_entry_prepares_pending_session() {
    let mut m = Model::new();
    m.sessions = vec![session("ses_a", "A")];
    assert!(!m.change_session(Some(0)));
    assert!(m.current_session_id().is_none());
    assert_eq!(m.state, AppModalState::NoModal);
    match &m.session_state {
        SessionState::Pending(info) => assert!(info.temp_id.starts_with("ses_")),
        _ => panic!("expected a pending session"),
    }
    assert!(m.can_accept_input());
    assert!(m.has_pending_or_creating_session());
}

#[test]
fn update_toggle_and_quit() {
    let mut m = Model::new();
    let r = update_at(&mut m, Msg::ToggleVerbosity, 0);
    assert_eq!(r, CmdOrBatch::Single(Cmd::NoCmd));
    assert_eq!(m.verbosity_level, VerbosityLevel::Verbose);
    let r = update_at(&mut m, Msg::Quit, 0);
    assert_eq!(r, CmdOrBatch::Single(Cmd::NoCmd));
    assert_eq!(m.state, AppModalState::Quit);
}

#[test]
fn update_initialize_client_asks_for_discovery() {
    let mut m = Model::new();
    let r = update_at(&mut m, Msg::InitializeClient, 0);
    assert_eq!(r, CmdOrBatch::Single(Cmd::AsyncSpawnClientDiscovery));
}

#[test]
fn stream_errors_reconnect_three_times_then_fail() {
    let mut m = Model::new();
    update_at(&mut m, Msg::EventStreamConnected(EventStreamHandle { id: 1 }), 0);
    for attempt in 1..=3u32 {
        let r = update_at(&mut m, Msg::EventStreamError("lost".to_string()), 0);
        assert_eq!(r, CmdOrBatch::Single(Cmd::AsyncReconnectEventStream));
        assert_eq!(
            m.event_stream_state,
            EventStreamState::Reconnecting { attempt, last_error: "lost".to_string() }
        );
    }
    let r = update_at(&mut m, Msg::EventStreamError("gone".to_string()), 0);
    assert_eq!(r, CmdOrBatch::Single(Cmd::NoCmd));
    assert_eq!(m.event_stream_state, EventStreamState::Failed("gone".to_string()));
}

#[test]
fn cycle_mode_without_modes_and_client_does_nothing() {
    let mut m = Model::new();
    let r = update_at(&mut m, Msg::CycleModeState, 0);
    assert_eq!(r, CmdOrBatch::Single(Cmd::NoCmd));
    assert_eq!(m.mode_state, None);
}
