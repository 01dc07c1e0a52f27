use opencoders::keys::KeyCode;
use opencoders::json::{parse_json_text, JsonField, JsonValue};
use opencoders::tool_summary::{format_tool_result_summary, todo_count_summary};
use opencoders::ids::{generate_descending_id, generate_id};
use opencoders::renderer::{todo_list_lines, MessageContext, MessageRenderer};
use opencoders::message_builder::{MessageBuilder, PartInput};
use opencoders::ids::{format_id, IdClock, IdPrefix};
use opencoders::modal_selector::SelectableData;
use opencoders::client::{LogLevel, OpenCodeClient};
use opencoders::components::{Clearable, Focusable, StoryVariant};
use opencoders::diagnostics::{event_label, tally_tool_states};
use opencoders::models::{Event, SessionMessage, ToolPart, ToolState};
use opencoders::discovery::{
    development_mode_from, find_server_url_in_process_listing, retry_delay_ms, server_url,
    DiscoveryConfig,
};
use opencoders::error::{
    async_task, configuration, event_processing, terminal_init, ClassifiedError, ErrorReport,
    ErrorSource, IoErrorKind, OpenCodeError, RecoveryExt, RecoveryStrategy, SdkErrorExt,
    TerminalErrorExt,
};
use opencoders::events::{reconnect_backoff_ms, sse_data_payload};
use opencoders::inline_renderer::render_line;
use opencoders::message_state::MessageState;
use opencoders::model::ModelInit;
use opencoders::models::{Message, Part, TextPart, UserMessage};
use opencoders::persistence::{join_path, last_session_file, parse_saved_session_id};
use opencoders::renderer::{Color, StyledLine, StyledSpan};
use opencoders::terminal::{bottom_aligned_row, restore_clear_row, terminal_plan, TerminalGuard, ViewportKind};
use opencoders::text_input::TextInputArea;
use opencoders::text_wrapper::TextWrapper;

fn sections(r: &ErrorReport) -> Vec<(String, String)> {
    r.sections.iter().map(|s| (s.header.clone(), s.body.clone())).collect()
}

fn user_msg(id: &str, sid: &str) -> Message {
    Message::User(UserMessage { id: id.to_string(), session_id: sid.to_string() })
}

fn text_part(id: &str, sid: &str, mid: &str, text: &str) -> Part {
    Part::Text(TextPart {
        id: id.to_string(),
        session_id: sid.to_string(),
        message_id: mid.to_string(),
        text: text.to_string(),
        synthetic: None,
    })
}

#[test]
fn error_messages_and_classes() {
    let e = OpenCodeError::api_error(404, "missing");
    assert_eq!(e.message(), "API error: 404 - missing");
    assert!(e.is_client_error());
    assert!(!e.is_server_error());
    assert!(!e.is_retryable());
    let s = OpenCodeError::api_error(503, "down");
    assert!(s.is_server_error() && s.is_retryable() && !s.is_client_error());
    assert_eq!(
        OpenCodeError::message_not_found("s1", "m1").message(),
        "Message not found: m1 in session s1"
    );
    assert!(OpenCodeError::timeout_error("t").is_retryable());
}

#[test]
fn recovery_strategy_by_source_and_text() {
    let io = ClassifiedError { source: ErrorSource::Io(IoErrorKind::TimedOut), message: "x".to_string() };
    assert_eq!(io.recovery_strategy(), RecoveryStrategy::Retry);
    assert!(io.is_retryable());
    let pipe = ClassifiedError { source: ErrorSource::Io(IoErrorKind::BrokenPipe), message: "x".to_string() };
    assert!(pipe.is_fatal());
    let text = |m: &str| ClassifiedError { source: ErrorSource::Other, message: m.to_string() };
    assert_eq!(text("Terminal is broken").recovery_strategy(), RecoveryStrategy::RestartTerminal);
    assert_eq!(text("Logger failed").recovery_strategy(), RecoveryStrategy::Ignore);
    assert_eq!(text("bad CONFIG file").recovery_strategy(), RecoveryStrategy::Exit);
    assert_eq!(text("Event processing stalled").recovery_strategy(), RecoveryStrategy::Ignore);
    assert_eq!(text("something else").recovery_strategy(), RecoveryStrategy::Exit);
    let sdk = ClassifiedError { source: ErrorSource::Sdk(OpenCodeError::ConnectionTimeout), message: String::new() };
    assert_eq!(sdk.recovery_strategy(), RecoveryStrategy::Retry);
}

#[test]
fn contextual_reports_carry_their_sections() {
    let r = terminal_init("no tty");
    assert_eq!(r.error.message, "no tty");
    assert_eq!(
        sections(&r),
        vec![
            ("Error Type:".to_string(), "Terminal initialization failed".to_string()),
            ("Suggestion:".to_string(), "Try restarting the terminal or checking terminal capabilities".to_string()),
        ]
    );
    assert_eq!(sections(&configuration("c"))[0].1, "Configuration error");
    assert_eq!(sections(&async_task("a"))[1].0, "Recovery:");
    assert_eq!(sections(&event_processing("e"))[0].1, "Event processing failed");
    // a report of an async task error is ignored by recovery
    assert_eq!(async_task("async task died").recovery_strategy(), RecoveryStrategy::Ignore);
}

#[test]
fn terminal_and_sdk_context_append_sections() {
    let r = terminal_init("x").with_terminal_context(true, false);
    let s = sections(&r);
    assert_eq!(s.len(), 4);
    assert_eq!(s[2], ("Terminal State:".to_string(), "Raw mode: true".to_string()));
    assert_eq!(s[3], ("Screen Mode:".to_string(), "Alternate screen: false".to_string()));
    let r = OpenCodeError::ServerNotFound.with_sdk_context("list_sessions", Some("/session"));
    assert_eq!(r.error.message, "OpenCode server not found - check if server is running");
    assert_eq!(
        sections(&r),
        vec![
            ("SDK Operation:".to_string(), "list_sessions".to_string()),
            ("Endpoint:".to_string(), "/session".to_string()),
        ]
    );
    let r = OpenCodeError::ServerNotFound.with_sdk_context("op", None);
    assert_eq!(sections(&r).len(), 1);
    assert!(r.is_fatal());
}

#[test]
fn discovery_helpers() {
    let c = DiscoveryConfig::default();
    assert_eq!(retry_delay_ms(&c, 0), 500);
    assert_eq!(retry_delay_ms(&c, 2), 2000);
    assert_eq!(server_url("localhost", 4096), "http://localhost:4096");
    assert!(development_mode_from(false, Some("development"), false));
    assert!(!development_mode_from(false, Some("production"), false));
    let listing = "root 1 init\nuser 2 opencode serve --port 9000\nuser 3 opencode serve --port 9001\n";
    assert_eq!(find_server_url_in_process_listing(listing), Some("http://127.0.0.1:9000".to_string()));
    assert_eq!(find_server_url_in_process_listing("nothing here"), None);
}

#[test]
fn sse_lines_and_backoff() {
    assert_eq!(sse_data_payload("data: {\"a\":1}"), Some("{\"a\":1}".to_string()));
    assert_eq!(sse_data_payload(": keepalive"), None);
    assert_eq!(sse_data_payload("data:    "), None);
    assert_eq!(reconnect_backoff_ms(0), 1000);
    assert_eq!(reconnect_backoff_ms(3), 8000);
    assert_eq!(reconnect_backoff_ms(20), 64000);
}

#[test]
fn saved_session_file_reads_back() {
    assert_eq!(join_path("/a/", "b"), "/a/b");
    assert_eq!(last_session_file("/h/.opencode"), "/h/.opencode/last_session");
    assert_eq!(parse_saved_session_id("ses_123\n").unwrap(), "ses_123");
    match parse_saved_session_id("  \n") {
        Err(OpenCodeError::SessionPersistence(m)) => assert_eq!(m, "Empty session ID"),
        other => panic!("unexpected {:?}", other),
    }
}

#[test]
fn uncoloured_line_renders_plain_and_colour_adds_codes() {
    let plain = StyledLine {
        spans: vec![
            StyledSpan { content: "a".to_string(), fg: None },
            StyledSpan { content: "b".to_string(), fg: Some(Color::Reset) },
        ],
    };
    assert_eq!(render_line(&plain), "ab");
    let red = StyledLine { spans: vec![StyledSpan { content: "r".to_string(), fg: Some(Color::Red) }] };
    assert_eq!(render_line(&red), "\x1b[31mr\x1b[39m");
}

#[test]
fn wrapped_lines_fit_the_width() {
    let w = TextWrapper::new(10, Some(3));
    let out = w.wrap_text("the quick brown fox jumps over the lazy dog");
    assert!(out.iter().all(|l| l.chars().count() <= 10));
    assert_eq!(w.wrap_text("a\n\nb"), vec!["a".to_string(), String::new(), "b".to_string()]);
}

#[test]
fn message_store_reads_back_writes() {
    let mut st = MessageState::new();
    st.set_session_id(Some("s1".to_string()));
    assert!(st.update_message(user_msg("m1", "s1"), 10));
    assert!(!st.update_message(user_msg("m9", "other"), 10));
    assert!(st.update_message_part(text_part("p1", "s1", "m1", "hello"), 11));
    assert!(st.update_message_part(text_part("p1", "s1", "m1", "hello world"), 12));
    assert!(!st.update_message_part(text_part("p2", "s1", "nope", "x"), 12));
    assert!(st.is_message_streaming("m1"));
    assert_eq!(st.get_streaming_message_count(), 1);
    assert_eq!(st.get_messages_needing_stdout_print(), vec!["hello world".to_string()]);
    st.mark_messages_printed_to_stdout(1);
    assert!(!st.has_messages_needing_stdout_print());
    st.mark_message_complete("m1");
    assert!(!st.is_message_streaming("m1"));
    assert!(st.remove_message("s1", "m1"));
    assert!(!st.remove_message("s1", "m1"));
    assert!(st.is_empty());
}

#[test]
fn terminal_setup_follows_drawing_mode() {
    let inline = ModelInit::new(true);
    let full = ModelInit::new(false);
    assert!(inline.inline_mode() && !full.inline_mode());
    assert_eq!(inline, ModelInit::new(true));
    assert_ne!(inline, full);
    let p = terminal_plan(&inline, 12);
    assert!(!p.alternate_screen);
    assert_eq!(p.viewport, ViewportKind::Inline(12));
    let p = terminal_plan(&full, 12);
    assert!(p.alternate_screen);
    assert_eq!(p.viewport, ViewportKind::Fullscreen);
    assert_eq!(bottom_aligned_row(40, 3, 12), Some(27));
    assert_eq!(bottom_aligned_row(40, 30, 12), None);
    assert_eq!(bottom_aligned_row(5, 0, 12), None);
    assert_eq!(restore_clear_row(40, 12), 28);
    assert_eq!(restore_clear_row(5, 12), 0);
    assert!(TerminalGuard::new(&full).leaves_alternate_screen());
    assert!(!TerminalGuard::new(&inline).leaves_alternate_screen());
}

#[test]
fn input_box_traits_and_story_variants() {
    let mut t = TextInputArea::new();
    Focusable::set_focus(&mut t, true);
    assert!(Focusable::is_focused(&t));
    t.set_content("one\ntwo");
    assert_eq!(t.content(), "one\ntwo");
    assert_eq!(t.current_height(), 4);
    Clearable::clear(&mut t);
    assert!(t.is_empty());
    assert_eq!(t.current_height(), 3);
    let names: Vec<&str> = StoryVariant::all().iter().map(|v| v.name()).collect();
    assert_eq!(names, vec!["Empty", "With Placeholder", "Focused", "With Content"]);
    assert!(StoryVariant::Focused.fresh_input().unwrap().is_focused());
    assert!(StoryVariant::WithContent.fresh_input().is_none());
}

#[test]
fn input_box_height_is_bounded() {
    let mut t = TextInputArea::new();
    t.set_content("1\n2\n3\n4\n5\n6\n7\n8\n9\n10\n11\n12\n13");
    assert_eq!(t.current_height(), 10);
    t.set_content("");
    assert_eq!(t.current_height(), 3);
}

#[test]
fn log_levels_and_client() {
    assert_eq!(LogLevel::Debug.wire_name(), "debug");
    assert_eq!(LogLevel::Warn.wire_name(), "warn");
    assert_eq!(LogLevel::Error.wire_name(), "error");
    let c = OpenCodeClient::new("http://127.0.0.1:4096");
    assert_eq!(c.base_url(), "http://127.0.0.1:4096");
}

#[test]
fn tool_states_are_tallied() {
    let tool = |state: ToolState| {
        Part::Tool(ToolPart {
            id: "t".to_string(),
            session_id: "s".to_string(),
            message_id: "m".to_string(),
            call_id: "c".to_string(),
            tool: "bash".to_string(),
            state,
        })
    };
    let msgs = vec![
        SessionMessage {
            info: user_msg("m1", "s"),
            parts: vec![text_part("p", "s", "m1", "hi"), tool(ToolState::Pending)],
        },
        SessionMessage {
            info: user_msg("m2", "s"),
            parts: vec![tool(ToolState::Error { input: vec![], error: "x".to_string() }), tool(ToolState::Pending)],
        },
    ];
    let t = tally_tool_states(&msgs);
    assert_eq!((t.total_parts, t.tool_parts, t.pending, t.running, t.completed, t.error), (4, 3, 2, 0, 0, 1));
    let l = event_label(&Event::SessionIdle { session_id: "s".to_string() }).unwrap();
    assert_eq!((l.kind, l.properties_heading), ("SessionIdle", "Properties"));
    assert_eq!(event_label(&Event::FileEdited).unwrap().properties_heading, "File Properties");
    assert!(event_label(&Event::ServerConnected).is_none());
}

fn file(path: &str) -> opencoders::models::File {
    opencoders::models::File { path: path.to_string(), added: 1, removed: 0, status: "modified".to_string() }
}

#[test]
fn selector_navigation_wraps_and_undoes() {
    let mut s = opencoders::selectors::FileSelector::new();
    s.set_files(vec![file("a"), file("b"), file("c")]);
    assert_eq!(s.selected_index(), Some(0));
    s.navigate_up();
    assert_eq!(s.selected_index(), Some(2));
    assert_eq!(s.get_selected_file().unwrap().path, "c");
    s.navigate_down();
    assert_eq!(s.selected_index(), Some(0));
    s.navigate_down();
    s.navigate_up();
    assert_eq!(s.selected_index(), Some(0));
    let mut empty = opencoders::selectors::FileSelector::new();
    empty.set_files(vec![]);
    empty.navigate_down();
    assert_eq!(empty.selected_index(), None);
}

#[test]
fn empty_log_does_not_scroll() {
    let mut log = opencoders::message_log::MessageLog::new();
    log.scroll_vertical(&5);
    assert_eq!(log.vertical_scroll(), 0);
    log.scroll_vertical(&-3);
    assert_eq!(log.vertical_scroll(), 0);
}

#[test]
fn selector_entries_render_their_data() {
    let d = opencoders::selectors::SessionData::new_session();
    assert_eq!(SelectableData::to_string(&d), "Create New Session");
    let cells = d.to_cells();
    assert_eq!(cells.len(), 1);
    assert_eq!(cells[0].spans[0].content, "Create New Session");
    let spans = d.to_spans().unwrap();
    assert_eq!(spans[0].content, "  ");
    let f = opencoders::selectors::FileData::from_file(file("src/main.rs"));
    assert_eq!(SelectableData::to_string(&f), "src/main.rs");
    assert_eq!(f.to_cells().len(), 2);
    let spans = f.to_spans().unwrap();
    assert_eq!(spans[spans.len() - 1].content, "src/main.rs");
    assert_eq!(spans[spans.len() - 2].content, " ");
}

#[test]
fn contextual_reports_recover_by_kind() {
    assert_eq!(async_task("boom").recovery_strategy(), RecoveryStrategy::Ignore);
    assert!(!async_task("boom").is_fatal());
    assert_eq!(event_processing("bad frame").recovery_strategy(), RecoveryStrategy::Ignore);
    assert_eq!(terminal_init("no tty").recovery_strategy(), RecoveryStrategy::RestartTerminal);
    assert_eq!(configuration("missing key").recovery_strategy(), RecoveryStrategy::Exit);
}

#[test]
fn server_errors_are_5xx_only() {
    assert!(OpenCodeError::api_error(503, "x").is_server_error());
    assert!(!OpenCodeError::api_error(600, "x").is_server_error());
    assert!(!OpenCodeError::api_error(404, "x").is_server_error());
}

#[test]
fn narrow_widths_wrap_with_default_tolerance() {
    let w = TextWrapper::new(3, None);
    assert_eq!(w.wrap_text("abc def"), vec!["abc".to_string(), "def".to_string()]);
}


fn press(c: char) -> opencoders::keys::KeyPress {
    opencoders::keys::KeyPress {
        code: opencoders::keys::KeyCode::Char(c),
        modifiers: 0,
    }
}

#[test]
fn typed_character_is_inserted_at_cursor() {
    let mut t = TextInputArea::new();
    t.set_content("hello");
    let r = t.handle_input(press('X'));
    assert!(r.submitted_text.is_none());
    assert_eq!(t.content(), "Xhello");
    t.handle_input(press('Y'));
    assert_eq!(t.content(), "XYhello");
    t.handle_message(opencoders::text_input::MsgTextArea::KeyInput(press('Z')));
    assert_eq!(t.content(), "XYZhello");
}

#[test]
fn message_builder_requires_ids() {
    let err = MessageBuilder::new("ses_1").provider("p").model("m").request().unwrap_err();
    assert_eq!(err, OpenCodeError::InvalidRequest("message_id is required".to_string()));
    let err = MessageBuilder::new("ses_1").message_id("msg_1").model("m").request().unwrap_err();
    assert_eq!(err, OpenCodeError::InvalidRequest("provider_id is required".to_string()));
    let err = MessageBuilder::new("ses_1").message_id("msg_1").provider("p").request().unwrap_err();
    assert_eq!(err, OpenCodeError::InvalidRequest("model_id is required".to_string()));
    let mut clock = IdClock::new();
    let req = MessageBuilder::new("ses_1")
        .message_id("msg_1")
        .provider("p")
        .model("m")
        .mode("build")
        .add_text_part(&mut clock, "hi")
        .add_file_part(&mut clock, "a.txt", "text/plain", "file://a.txt")
        .request()
        .unwrap();
    assert_eq!(req.session_id, "ses_1");
    assert_eq!(req.mode, Some("build".to_string()));
    assert_eq!(req.parts.len(), 2);
    match &req.parts[0] {
        PartInput::Text { id, text } => {
            assert!(id.starts_with("prt_"));
            assert_eq!(text, "hi");
        }
        _ => panic!("expected a text part"),
    }
    // the two part ids come from one clock, so they differ
    let ids: Vec<&String> = req
        .parts
        .iter()
        .map(|p| match p {
            PartInput::Text { id, .. } => id,
            PartInput::File { id, .. } => id,
        })
        .collect();
    assert_ne!(ids[0], ids[1]);
}

#[test]
fn popover_default_is_titled_select() {
    let p: opencoders::popover_selector::PopoverSelector = Default::default();
    assert!(p.items().is_empty());
    assert_eq!(p.selected_index(), 0);
    assert!(!p.is_visible());
}

#[test]
fn one_clock_orders_its_stamps() {
    let mut c = IdClock::new();
    assert_eq!(c.tick(5), 1);
    assert_eq!(c.tick(5), 2);
    assert_eq!(c.tick(6), 1);
    let r = [0u8; 14];
    let a = format_id(IdPrefix::Message, 5, 1, false, &r);
    let b = format_id(IdPrefix::Message, 5, 2, false, &r);
    let c2 = format_id(IdPrefix::Message, 6, 1, false, &r);
    assert!(a[4..16] < b[4..16] && b[4..16] < c2[4..16]);
    let da = format_id(IdPrefix::Message, 5, 1, true, &r);
    let db = format_id(IdPrefix::Message, 5, 2, true, &r);
    assert!(da[4..16] > db[4..16]);
}

fn key(code: opencoders::keys::KeyCode, modifiers: u8) -> opencoders::keys::KeyPress {
    opencoders::keys::KeyPress { code, modifiers }
}

#[test]
fn editing_keys_change_the_text_at_the_cursor() {
    let mut t = TextInputArea::new();
    t.set_content("ab\ncd");
    // cursor at (0, 0): Right twice, then Backspace removes 'b'
    t.handle_input(key(KeyCode::Right, 0));
    t.handle_input(key(KeyCode::Right, 0));
    t.handle_input(key(KeyCode::Backspace, 0));
    assert_eq!(t.content(), "a\ncd");
    // Delete at the line's end joins the next line
    t.handle_input(key(KeyCode::Delete, 0));
    assert_eq!(t.content(), "acd");
    // Home then Delete removes the first character
    t.handle_input(key(KeyCode::Home, 0));
    t.handle_input(key(KeyCode::Delete, 0));
    assert_eq!(t.content(), "cd");
    // Backspace at the very start changes nothing; Esc changes nothing
    t.handle_input(key(KeyCode::Backspace, 0));
    t.handle_input(key(KeyCode::Esc, 0));
    assert_eq!(t.content(), "cd");
    // End then typing appends
    t.handle_input(key(KeyCode::End, 0));
    t.handle_input(key(KeyCode::Char('!'), 0));
    assert_eq!(t.content(), "cd!");
    // Up on the first line does nothing; Down neither
    t.handle_input(key(KeyCode::Up, 0));
    t.handle_input(key(KeyCode::Down, 0));
    t.handle_input(key(KeyCode::Char('?'), 0));
    assert_eq!(t.content(), "cd!?");
}

fn todowrite_part(output: &str, metadata: Vec<opencoders::json::JsonField>) -> ToolPart {
    ToolPart {
        id: "t".to_string(),
        session_id: "s".to_string(),
        message_id: "m".to_string(),
        call_id: "c".to_string(),
        tool: "todowrite".to_string(),
        state: ToolState::Completed { input: vec![], output: output.to_string(), metadata },
    }
}

#[test]
fn todowrite_output_is_read_as_json() {
    let out = r#"[{"content":"a","status":"pending"},{"content":"b","status":"completed"}]"#;
    assert_eq!(format_tool_result_summary(&todowrite_part(out, vec![])), "2 todos");
    assert_eq!(format_tool_result_summary(&todowrite_part("not json", vec![])), "Updated todo list");
    assert_eq!(format_tool_result_summary(&todowrite_part("{\"a\":1}", vec![])), "Updated todo list");
    // the metadata's todos come first
    let meta = vec![JsonField { key: "todos".to_string(), value: JsonValue::Array(vec![JsonValue::Null]) }];
    assert_eq!(format_tool_result_summary(&todowrite_part(out, meta)), "1 todos");
    let parsed = parse_json_text(r#"{"k":[1,true,null,"x"],"n":-2}"#).unwrap();
    match &parsed {
        JsonValue::Object(fields) => {
            assert_eq!(fields.len(), 2);
            assert_eq!(fields[0].key, "k");
            assert_eq!(
                fields[0].value,
                JsonValue::Array(vec![
                    JsonValue::Number(Some(1)),
                    JsonValue::Bool(true),
                    JsonValue::Null,
                    JsonValue::String("x".to_string()),
                ])
            );
            assert_eq!(fields[1].value, JsonValue::Number(None));
        }
        _ => panic!("an object was expected"),
    }
    assert_eq!(todo_count_summary(Some(&JsonValue::Array(vec![]))), "0 todos");
    assert_eq!(todo_count_summary(None), "Updated todo list");
}

#[test]
fn todo_list_is_drawn_from_the_output() {
    let lines = todo_list_lines(None);
    assert_eq!(lines.len(), 1);
    let parsed = opencoders::json::parse_json_text(
        r#"[{"content":"write","status":"in_progress"},{"content":"skip"}]"#,
    );
    let lines = todo_list_lines(parsed.as_ref());
    assert_eq!(lines.len(), 1);
    assert_eq!(lines[0].spans[1].content, "◐");
    assert_eq!(lines[0].spans[3].content, "write");
    assert_eq!(todo_list_lines(Some(&JsonValue::Null)).len(), 1);
}

#[test]
fn ids_of_one_clock_have_increasing_time_parts() {
    let mut clock = IdClock::new();
    let mut last = generate_id(&mut clock, IdPrefix::Message);
    for _ in 0..500 {
        let next = generate_id(&mut clock, IdPrefix::Message);
        assert!(last[4..16] < next[4..16], "{} then {}", last, next);
        last = next;
    }
    let mut last = generate_descending_id(&mut clock, IdPrefix::Message);
    for _ in 0..500 {
        let next = generate_descending_id(&mut clock, IdPrefix::Message);
        assert!(last[4..16] > next[4..16], "{} then {}", last, next);
        last = next;
    }
}

fn step(id: &str) -> opencoders::models::StepPart {
    opencoders::models::StepPart { id: id.to_string(), session_id: "s".to_string(), message_id: "m".to_string() }
}

fn rendered_text(parts: &Vec<Part>) -> String {
    let r = MessageRenderer::new(parts, MessageContext::Inline);
    let mut all = String::new();
    for l in r.render() {
        for s in l.spans {
            all.push_str(&s.content);
        }
        all.push('\n');
    }
    all
}

#[test]
fn steps_group_only_what_lies_inside_them() {
    let parts = vec![
        text_part("p0", "s", "m", "before"),
        Part::StepStart(step("a")),
        text_part("p1", "s", "m", "inside"),
        Part::StepFinish(step("b")),
        text_part("p2", "s", "m", "after"),
    ];
    let all = rendered_text(&parts);
    assert!(all.contains("inside"));
    assert!(!all.contains("before"));
    assert!(!all.contains("after"));
}

#[test]
fn patch_parts_show_their_files_as_json() {
    let parts = vec![
        Part::StepStart(step("a")),
        Part::Patch(opencoders::models::PatchPart {
            id: "p".to_string(),
            session_id: "s".to_string(),
            message_id: "m".to_string(),
            files: vec!["a.rs".to_string(), "b.rs".to_string()],
        }),
    ];
    let all = rendered_text(&parts);
    assert!(all.contains(r#"TODO(patch) files=["a.rs","b.rs"]"#), "{}", all);
}

#[test]
fn banner_has_five_lines_of_ten_letters() {
    let t = opencoders::widgets::create_welcome_text();
    assert_eq!(t.len(), 5);
    assert_eq!(t.len(), opencoders::widgets::welcome_text_height() as usize + 1);
    assert!(t[0].spans.is_empty() && t[4].spans.is_empty());
    for row in 1..=3 {
        assert_eq!(t[row].spans.len(), 19);
        for k in 0..10 {
            assert_eq!(t[row].spans[2 * k].content.chars().count(), 4);
            let c = if k < 4 { Color::Gray } else if k < 8 { Color::White } else { Color::Red };
            assert_eq!(t[row].spans[2 * k].fg, Some(c));
        }
        for k in 0..9 {
            assert_eq!(t[row].spans[2 * k + 1].content, " ");
            assert_eq!(t[row].spans[2 * k + 1].fg, None);
        }
    }
}

#[test]
fn whole_text_wraps_keeping_its_visible_characters() {
    let w = TextWrapper::new(10, None);
    let text = "the quick brown fox\r\njumps over\n\n  the lazy dog  ";
    let out = w.wrap_text(text);
    let vis = |s: &str| s.chars().filter(|c| !c.is_whitespace()).collect::<String>();
    assert_eq!(vis(&out.concat()), vis(text));
    assert!(out.iter().all(|l| l.chars().count() <= 10 && !l.ends_with(char::is_whitespace)));
    assert_eq!(TextWrapper::new(10, Some(5)).wrap_text(text), out);
}
