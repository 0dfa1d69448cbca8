use aether_matrix::event_handler::{unavailable_message, EventHandler, MessageAction, StreamPublisher};

fn handler(streaming: bool) -> EventHandler {
    EventHandler::new("@bot:matrix.org".to_string(), "!ai".to_string(), streaming, 1000, 10)
}

#[test]
fn extract_strips_prefix_mentions_and_space() {
    let h = handler(true);
    assert_eq!(h.extract_message("!ai   hello  "), "hello");
    assert_eq!(h.extract_message("@bot:matrix.org: hi @bot:matrix.org there"), ": hi  there");
    assert_eq!(h.extract_message("  plain\u{3000}"), "plain");
    assert_eq!(h.extract_message("x !ai y"), "x !ai y");
}

#[test]
fn invitations() {
    assert!(EventHandler::handle_invite(true, "@bot:x", "@bot:x"));
    assert!(!EventHandler::handle_invite(true, "@other:x", "@bot:x"));
    assert!(!EventHandler::handle_invite(false, "@bot:x", "@bot:x"));
}

#[test]
fn decisions() {
    let h = handler(true);
    assert!(matches!(h.handle_message("@bot:matrix.org", "!r", "!ai hi", true, true), MessageAction::Ignore));
    assert!(matches!(h.handle_message("@u:x", "!r", "hello", false, false), MessageAction::Ignore));
    match h.handle_message("@u:x", "!r", "!ai !reset", false, false) {
        MessageAction::Reset { session_id, reply } => {
            assert_eq!(session_id, "!r");
            assert_eq!(reply, "会话历史已清除");
        }
        _ => panic!("expected reset"),
    }
    match h.handle_message("@u:x", "!r", "!help", true, false) {
        MessageAction::Help { reply } => assert_eq!(
            reply,
            "可用命令:\n!ai <消息> - 与 AI 对话\n!reset - 清除会话历史\n!help - 显示帮助"
        ),
        _ => panic!("expected help"),
    }
    match h.handle_message("@u:x", "!r", "hey @bot:matrix.org", false, false) {
        MessageAction::Chat { session_id, prompt, streaming } => {
            assert_eq!(session_id, "!r");
            assert_eq!(prompt, "hey");
            assert!(streaming);
        }
        _ => panic!("expected chat"),
    }
    match handler(false).handle_message("@u:x", "!r", "hi", true, false) {
        MessageAction::Chat { session_id, prompt, streaming } => {
            assert_eq!(session_id, "@u:x");
            assert_eq!(prompt, "hi");
            assert!(!streaming);
        }
        _ => panic!("expected chat"),
    }
    assert!(matches!(h.handle_message("@u:x", "!r", "any", false, true), MessageAction::Chat { .. }));
}

#[test]
fn reset_and_help_with_default_prefix() {
    let h = EventHandler::new("@bot:matrix.org".to_string(), "!".to_string(), true, 1000, 10);
    match h.handle_message("@u:x", "!room", "!reset", false, false) {
        MessageAction::Reset { session_id, .. } => assert_eq!(session_id, "!room"),
        _ => panic!("expected reset"),
    }
    match h.handle_message("@u:x", "!room", "!reset", true, false) {
        MessageAction::Reset { session_id, .. } => assert_eq!(session_id, "@u:x"),
        _ => panic!("expected reset in the sender's session"),
    }
    assert!(matches!(h.handle_message("@u:x", "!room", "@bot:matrix.org !help", false, false), MessageAction::Help { .. }));
    match h.handle_message("@u:x", "!room", "!hello", false, false) {
        MessageAction::Chat { prompt, .. } => assert_eq!(prompt, "hello"),
        _ => panic!("expected chat"),
    }
}

#[test]
fn unavailable() {
    assert_eq!(unavailable_message("timeout"), "AI 服务暂时不可用: timeout");
}

#[test]
fn stream_sent_once_then_edited() {
    let mut p = StreamPublisher::new(5);
    assert!(p.on_delta("ab", "ab", false).is_none());
    let e = p.on_delta("cde", "abcde", false).unwrap();
    assert_eq!(e.text, "abcde");
    assert!(!e.replace);
    assert!(p.on_delta("f", "abcdef", false).is_none());
    let e = p.on_delta("g", "abcdefg", true).unwrap();
    assert!(e.replace);
    let e = p.on_delta("你好世界啊", "abcdefg你好世界啊", false).unwrap();
    assert!(e.replace);
    let end = p.on_finish("abcdefg你好世界啊").unwrap();
    assert!(end.replace);
    assert_eq!(end.text, "abcdefg你好世界啊");
}

#[test]
fn stream_short_reply_sent_at_the_end() {
    let mut p = StreamPublisher::new(50);
    assert!(p.on_delta("hi", "hi", false).is_none());
    let end = p.on_finish("hi").unwrap();
    assert_eq!(end.text, "hi");
    assert!(!end.replace);
    assert!(StreamPublisher::new(1).on_finish("").is_none());
}

#[test]
fn stream_errors() {
    let p = StreamPublisher::new(50);
    let e = p.on_error("", "boom");
    assert_eq!(e.text, "AI 服务暂时不可用: boom");
    assert!(!e.replace);
    let e = p.on_error("part", "boom");
    assert_eq!(e.text, "part\n\n[错误: boom]");
    assert!(!e.replace);
    let mut q = StreamPublisher::new(1);
    q.on_delta("x", "x", false).unwrap();
    assert!(q.on_error("x", "e").replace);
}
