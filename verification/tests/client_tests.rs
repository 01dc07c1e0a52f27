use opencoders::discovery::extract_server_url_from_process_line;
use opencoders::ids::{generate_descending_id, generate_id, IdClock, IdPrefix};
use opencoders::inline_renderer::render_text_inline;
use opencoders::persistence::state_dir_from_home;
use opencoders::renderer::{Color, StyledLine, StyledSpan};
use std::collections::HashSet;

fn span(text: &str, fg: Option<Color>) -> StyledSpan {
    StyledSpan { content: text.to_string(), fg }
}

#[test]
fn test_render_simple_text() {
    let text = vec![StyledLine { spans: vec![span("Hello, World!", None)] }];
    let result = render_text_inline(&text);
    assert_eq!(result, "Hello, World!");
}

#[test]
fn test_render_colored_span() {
    let text = vec![StyledLine { spans: vec![span("Colored text", Some(Color::Red))] }];
    let result = render_text_inline(&text);
    assert!(result.contains("Colored text"));
}

#[test]
fn test_render_mixed_colors() {
    let line = StyledLine {
        spans: vec![
            span("Red ", Some(Color::Red)),
            span("Green ", Some(Color::Green)),
            span("Plain", None),
        ],
    };
    let result = render_text_inline(&vec![line]);
    assert!(result.contains("Red"));
    assert!(result.contains("Green"));
    assert!(result.contains("Plain"));
}

#[test]
fn test_extract_server_url_from_process_line() {
    let line = "user  12345  0.1  0.5  123456  7890 ?  S  10:30  0:01 opencode serve --port 8080 --hostname 127.0.0.1";
    let url = extract_server_url_from_process_line(line);
    assert_eq!(url, Some("http://127.0.0.1:8080".to_string()));

    let line2 = "user  12346  0.1  0.5  123456  7890 ?  S  10:30  0:01 opencode serve -p 3000";
    let url2 = extract_server_url_from_process_line(line2);
    assert_eq!(url2, Some("http://127.0.0.1:3000".to_string()));

    let line3 = "user  12347  0.1  0.5  123456  7890 ?  S  10:30  0:01 opencode serve --hostname localhost --port 8000";
    let url3 = extract_server_url_from_process_line(line3);
    assert_eq!(url3, Some("http://localhost:8000".to_string()));
}

#[test]
fn test_get_opencode_state_dir() {
    let state_dir = state_dir_from_home(Some("/home/user"));
    assert!(state_dir.ends_with(".opencode"));
    assert_eq!(state_dir, "/home/user/.opencode");
    assert_eq!(state_dir_from_home(None), ".opencode");
}

#[test]
fn test_id_generation_prefixes() {
    let mut clock = IdClock::new();
    let prefixes = [
        (IdPrefix::Message, "msg"),
        (IdPrefix::Session, "ses"),
        (IdPrefix::User, "usr"),
        (IdPrefix::Part, "prt"),
        (IdPrefix::Permission, "per"),
    ];
    for (prefix_enum, expected_prefix) in prefixes {
        let id = generate_id(&mut clock, prefix_enum);
        assert!(id.starts_with(expected_prefix), "ID should start with correct prefix: {} -> {}", expected_prefix, id);
        assert!(id.starts_with(&format!("{}_", expected_prefix)), "ID should have underscore after prefix: {}", id);
        let expected_len = expected_prefix.len() + 1 + 12 + 14;
        assert_eq!(id.len(), expected_len, "ID should be correct length: expected {}, got {} for '{}'", expected_len, id.len(), id);
        let suffix = &id[expected_prefix.len() + 1..];
        assert_eq!(suffix.len(), 26, "Suffix should be 26 characters");
        let hex_part = &suffix[0..12];
        assert!(hex_part.chars().all(|c| c.is_ascii_hexdigit()), "First 12 suffix chars should be hex: {}", hex_part);
        let base62_part = &suffix[12..26];
        let base62_chars = "0123456789ABCDEFGHIJKLMNOPQRSTUVWXYZabcdefghijklmnopqrstuvwxyz";
        assert!(base62_part.chars().all(|c| base62_chars.contains(c)), "Last 14 chars should be base62: {}", base62_part);
    }
}

#[test]
fn test_id_uniqueness() {
    let mut clock = IdClock::new();
    let mut ids = HashSet::new();
    let iterations = 1000;
    for _ in 0..iterations {
        let id = generate_id(&mut clock, IdPrefix::Message);
        assert!(!ids.contains(&id), "Generated duplicate ID: {}", id);
        ids.insert(id);
    }
    assert_eq!(ids.len(), iterations, "Should have generated {} unique IDs", iterations);
}

#[test]
fn test_descending_id_generation() {
    let mut clock = IdClock::new();
    let normal_id = generate_id(&mut clock, IdPrefix::Message);
    let descending_id = generate_descending_id(&mut clock, IdPrefix::Message);
    assert!(normal_id.starts_with("msg_"));
    assert!(descending_id.starts_with("msg_"));
    assert_eq!(normal_id.len(), descending_id.len());
    let normal_hex = &normal_id[4..16];
    let descending_hex = &descending_id[4..16];
    assert_ne!(normal_hex, descending_hex, "Descending ID hex should differ from normal ID");
}

#[test]
fn test_id_prefix_enum() {
    assert_eq!(IdPrefix::Message.as_str(), "msg");
    assert_eq!(IdPrefix::Session.as_str(), "ses");
    assert_eq!(IdPrefix::User.as_str(), "usr");
    assert_eq!(IdPrefix::Part.as_str(), "prt");
    assert_eq!(IdPrefix::Permission.as_str(), "per");
}
