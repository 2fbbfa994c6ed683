use aerowan::chat::ChatMessage;
use aerowan::screen::{chat_title, inner_rect, shorten, status_tone, Accent, InputPanel, Rect, Screen, Tone};
use aerowan::tui::{
    api_base_url, chat_send_request_body, connect_request_body, refresh_due, App, Command,
    InputMode, KeyInput, Reply,
};

fn app() -> App {
    App::new("http://127.0.0.1:37430".to_string(), "k".to_string())
}

fn type_text(a: &mut App, s: &str) {
    for c in s.chars() {
        assert!(matches!(a.handle_key(KeyInput::Char(c)), Command::Nothing));
    }
}

#[test]
fn starts_connecting() {
    let a = app();
    assert_eq!(a.node_id, "connecting...");
    assert_eq!(a.mode_label, "");
    assert!(a.peers.is_empty());
    assert!(matches!(a.input_mode, InputMode::Normal));
}

#[test]
fn quit_and_connect_flow() {
    let mut a = app();
    assert!(matches!(a.handle_key(KeyInput::Char('q')), Command::Quit));
    a.status_msg = Some("old".to_string());
    a.handle_key(KeyInput::Char('c'));
    assert!(matches!(a.input_mode, InputMode::Connecting));
    assert_eq!(a.status_msg, None);
    type_text(&mut a, "  abcq ");
    assert_eq!(a.input_buf, "  abcq ");
    a.handle_key(KeyInput::Backspace);
    a.handle_key(KeyInput::Backspace);
    assert_eq!(a.input_buf, "  abc");
    match a.handle_key(KeyInput::Enter) {
        Command::Connect { node_id } => assert_eq!(node_id, "abc"),
        _ => panic!("expected a dial"),
    }
    assert!(matches!(a.input_mode, InputMode::Normal));
    assert_eq!(a.input_buf, "");
}

#[test]
fn blank_node_id_not_dialled() {
    let mut a = app();
    a.handle_key(KeyInput::Char('c'));
    type_text(&mut a, "   ");
    assert!(matches!(a.handle_key(KeyInput::Enter), Command::Nothing));
    a.handle_key(KeyInput::Char('c'));
    type_text(&mut a, "x");
    a.handle_key(KeyInput::Esc);
    assert!(matches!(a.input_mode, InputMode::Normal));
    assert_eq!(a.input_buf, "");
}

#[test]
fn chat_needs_peers() {
    let mut a = app();
    a.handle_key(KeyInput::Char('t'));
    assert!(matches!(a.input_mode, InputMode::Normal));
    assert_eq!(a.status_msg.as_deref(), Some("\u{2717} no peers connected"));
}

#[test]
fn browse_select_and_chat() {
    let mut a = app();
    a.apply_peers_body(Some("[\"p1\",\"p2\",\"p3\"]".to_string()));
    assert_eq!(a.peers, vec!["p1", "p2", "p3"]);
    a.handle_key(KeyInput::Char('t'));
    assert!(matches!(a.input_mode, InputMode::ChatBrowse));
    a.handle_key(KeyInput::Up);
    assert_eq!(a.peer_cursor, 0);
    a.handle_key(KeyInput::Down);
    a.handle_key(KeyInput::Down);
    a.handle_key(KeyInput::Down);
    assert_eq!(a.peer_cursor, 2);
    a.chat_history.push(aerowan::tui::ChatEntry { from_self: true, text: "stale".to_string() });
    a.handle_key(KeyInput::Enter);
    match &a.input_mode {
        InputMode::Chatting { peer_id } => assert_eq!(peer_id, "p3"),
        _ => panic!("expected chat"),
    }
    assert!(a.chat_history.is_empty());
    assert!(matches!(a.screen(), Screen::Chat { .. }));
    a.handle_key(KeyInput::Char('i'));
    type_text(&mut a, " hello ");
    match a.handle_key(KeyInput::Enter) {
        Command::SendChat { peer_id, message } => {
            assert_eq!(peer_id, "p3");
            assert_eq!(message, "hello");
        }
        _ => panic!("expected a send"),
    }
    a.apply_send_reply("hello", Reply::Answered { success: true, text: "message sent".to_string() });
    assert_eq!(a.chat_history.len(), 1);
    assert!(a.chat_history[0].from_self);
    assert_eq!(a.chat_history[0].text, "hello");
    a.apply_send_reply("x", Reply::Answered { success: false, text: "nope".to_string() });
    assert_eq!(a.status_msg.as_deref(), Some("\u{2717} nope"));
    a.apply_send_reply("x", Reply::Failed { error: "down".to_string() });
    assert_eq!(a.status_msg.as_deref(), Some("\u{2717} send failed: down"));
    a.handle_key(KeyInput::Esc);
    assert!(matches!(a.input_mode, InputMode::Normal));
    assert!(a.chat_history.is_empty());
}

#[test]
fn peer_list_clamps_cursor() {
    let mut a = app();
    a.apply_peer_list(Some(vec!["a".to_string(), "b".to_string(), "c".to_string()]));
    a.peer_cursor = 2;
    a.apply_peers_body(Some("[\"a\"]".to_string()));
    assert_eq!(a.peer_cursor, 0);
    a.apply_peers_body(Some("not json".to_string()));
    assert!(a.peers.is_empty());
    a.apply_peer_list(Some(vec!["z".to_string()]));
    a.apply_peers_body(None);
    assert_eq!(a.peers, vec!["z"]);
}

#[test]
fn status_parsing() {
    let mut a = app();
    a.apply_status(Some("NodeID: abc123 ".to_string()));
    assert_eq!(a.node_id, "abc123");
    assert_eq!(a.mode_label, "iroh active");
    a.apply_status(Some("Running in Reticulum-only mode, iroh disabled".to_string()));
    assert_eq!(a.node_id, "\u{2014}");
    assert_eq!(a.mode_label, "reticulum-only");
    a.apply_status(None);
    assert_eq!(a.node_id, "daemon unreachable");
    assert_eq!(a.mode_label, "");
}

#[test]
fn connect_replies() {
    let mut a = app();
    assert!(a.apply_connect_reply(Reply::Answered { success: true, text: "Connected to: x".to_string() }));
    assert_eq!(a.status_msg.as_deref(), Some("\u{2713} Connected to: x"));
    assert!(!a.apply_connect_reply(Reply::Answered { success: false, text: "iroh disabled".to_string() }));
    assert_eq!(a.status_msg.as_deref(), Some("\u{2717} iroh disabled"));
    assert!(!a.apply_connect_reply(Reply::Failed { error: "refused".to_string() }));
    assert_eq!(a.status_msg.as_deref(), Some("\u{2717} request failed: refused"));
}

#[test]
fn inbox_lines() {
    let mut a = app();
    a.apply_inbox(vec![
        ChatMessage { from: "0123456789abcdef".to_string(), text: "hi".to_string(), timestamp: 1 },
        ChatMessage { from: "abc".to_string(), text: "yo".to_string(), timestamp: 2 },
    ]);
    assert_eq!(a.chat_history.len(), 2);
    assert_eq!(a.chat_history[0].text, "01234567: hi");
    assert!(!a.chat_history[0].from_self);
    assert_eq!(a.chat_history[1].text, "abc: yo");
}

#[test]
fn polling() {
    let mut a = app();
    assert!(refresh_due(2000));
    assert!(!refresh_due(1999));
    assert!(!a.chat_poll_due(10_000));
    a.input_mode = InputMode::Chatting { peer_id: "p".to_string() };
    assert!(a.chat_poll_due(500));
    assert!(!a.chat_poll_due(499));
}

#[test]
fn display_helpers() {
    assert_eq!(shorten("abcdef", 3), "abc\u{2026}");
    assert_eq!(shorten("abc", 3), "abc");
    assert_eq!(chat_title("0123456789abcdefXYZ"), " chat \u{2194} 0123456789abcdef\u{2026} ");
    assert_eq!(status_tone("\u{2713} ok"), Tone::Success);
    assert_eq!(status_tone("\u{2717} no"), Tone::Failure);
    assert_eq!(inner_rect(Rect { x: 0, y: 0, width: 1, height: 10 }), Rect { x: 1, y: 1, width: 0, height: 8 });
    let mut a = app();
    assert_eq!(a.peers_title(), " peers (0) ");
    let h = a.main_hints();
    assert_eq!(h.accent, Accent::Cyan);
    let keys: Vec<&str> = h.hints.iter().map(|x| x.key).collect();
    assert_eq!(keys, vec!["[c]", "[t]", "[q]"]);
    a.apply_peer_list(Some(vec!["p".to_string()]));
    a.handle_key(KeyInput::Char('t'));
    let rows = a.peer_rows();
    assert!(rows[0].selected);
    assert_eq!(a.main_hints().accent, Accent::Yellow);
    a.status_msg = Some("\u{2713} done".to_string());
    match a.input_panel() {
        InputPanel::Status { message, tone } => {
            assert_eq!(message, "\u{2713} done");
            assert_eq!(tone, Tone::Success);
        }
        _ => panic!("expected status"),
    }
    a.handle_key(KeyInput::Enter);
    assert_eq!(a.chat_input_title(), " press [i] to type ");
    a.handle_key(KeyInput::Char('i'));
    assert_eq!(a.chat_input_title(), " message ");
    let labels: Vec<&str> = a.chat_hints().hints.iter().map(|x| x.label).collect();
    assert_eq!(labels, vec![" send  ", " cancel"]);
    type_text(&mut a, "ab");
    assert_eq!(a.input_cursor(Rect { x: 2, y: 3, width: 10, height: 3 }), (5, 4));
    assert_eq!(a.node_id_display(), "connecting...");
}

#[test]
fn requests() {
    assert_eq!(api_base_url(37430), "http://127.0.0.1:37430");
    let a = App::new(api_base_url(37430), "k3y".to_string());
    assert_eq!(a.authorization(), "Bearer k3y");
    assert_eq!(a.endpoint_url("/status"), "http://127.0.0.1:37430/status");
    assert_eq!(connect_request_body("abc"), "{\"node_id\":\"abc\"}");
    assert_eq!(
        chat_send_request_body("p\"1", "hi\n"),
        "{\"message\":\"hi\\n\",\"node_id\":\"p\\\"1\"}"
    );
}
