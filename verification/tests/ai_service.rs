use aether_matrix::ai_service::{begin_chat, finish_chat, stream_error_message, take_chunk, ChunkOutcome, StreamingState};
use aether_matrix::conversation::{ConversationManager, Role};

#[test]
fn test_streaming_state_new() {
    let state = StreamingState::new();
    assert!(state.content().is_empty());
}

#[test]
fn test_streaming_state_append() {
    let mut state = StreamingState::new();
    state.append("Hello");
    assert_eq!(state.content(), "Hello");

    state.append(" World");
    assert_eq!(state.content(), "Hello World");
}

#[test]
fn test_streaming_state_multiple_appends() {
    let mut state = StreamingState::new();
    state.append("First");
    state.append(" ");
    state.append("Second");
    state.append(" ");
    state.append("Third");

    assert_eq!(state.content(), "First Second Third");
}

#[test]
fn absorb_chunk_passes_on_and_completes() {
    let mut state = StreamingState::new();
    match state.absorb_chunk(Some("你好"), false) {
        ChunkOutcome::Delta(d) => assert_eq!(d, "你好"),
        _ => panic!("expected a delta"),
    }
    assert!(matches!(state.absorb_chunk(None, false), ChunkOutcome::Skip));
    match state.absorb_chunk(Some("!"), true) {
        ChunkOutcome::Delta(d) => assert_eq!(d, "!"),
        _ => panic!("a chunk with content is passed on even when it ends the stream"),
    }
    match state.absorb_chunk(None, true) {
        ChunkOutcome::Completed(c) => assert_eq!(c, "你好!"),
        _ => panic!("expected completion"),
    }
    assert_eq!(state.content(), "你好!");
}

#[test]
fn chat_turn_records_prompt_and_reply() {
    let mut conv = ConversationManager::new(Some("sys".to_string()), 10);
    let sent = begin_chat(&mut conv, "room", "hi", None);
    assert_eq!(sent.len(), 2);
    assert_eq!(sent[0].role, Role::System);
    assert_eq!(sent[0].content, "sys");
    assert_eq!(sent[1].role, Role::User);
    assert_eq!(sent[1].content, "hi");

    let reply = finish_chat(&mut conv, "room", Some("hello".to_string()));
    assert_eq!(reply, "hello");
    let sent = begin_chat(&mut conv, "room", "again", Some("persona"));
    assert_eq!(sent.len(), 4);
    assert_eq!(sent[0].content, "persona");
    assert_eq!(sent[2].role, Role::Assistant);
    assert_eq!(sent[2].content, "hello");
    assert_eq!(sent[3].content, "again");

    let empty = finish_chat(&mut conv, "room", None);
    assert_eq!(empty, "");
    assert_eq!(conv.get_messages("room").len(), 5);
}

#[test]
fn stream_reply_is_the_pieces_passed_on() {
    let mut s = StreamingState::new();
    let chunks: [(Option<&str>, bool); 5] =
        [(Some("你好"), false), (None, false), (Some(", "), false), (Some("world"), false), (None, true)];
    let mut passed = String::new();
    let mut completed = None;
    for (delta, finished) in chunks {
        match s.absorb_chunk(delta, finished) {
            ChunkOutcome::Delta(d) => passed.push_str(&d),
            ChunkOutcome::Completed(c) => completed = Some(c),
            ChunkOutcome::Skip => {}
        }
        assert_eq!(s.content(), passed);
    }
    assert_eq!(passed, "你好, world");
    assert_eq!(completed.as_deref(), Some("你好, world"));
}

#[test]
fn completed_stream_is_recorded_in_the_history() {
    let mut conv = ConversationManager::new(None, 10);
    let mut state = StreamingState::new();
    let _ = begin_chat(&mut conv, "s", "question", None);
    assert_eq!(take_chunk(&mut state, &mut conv, "s", Some("ans"), false), Some("ans".to_string()));
    assert_eq!(take_chunk(&mut state, &mut conv, "s", None, false), None);
    assert_eq!(take_chunk(&mut state, &mut conv, "s", Some("wer"), false), Some("wer".to_string()));
    assert_eq!(conv.get_messages("s").len(), 1);
    assert_eq!(take_chunk(&mut state, &mut conv, "s", None, true), None);
    let messages = conv.get_messages("s");
    assert_eq!(messages.len(), 2);
    assert_eq!(messages[1].role, Role::Assistant);
    assert_eq!(messages[1].content, "answer");
    assert_eq!(state.content(), "answer");
}

#[test]
fn stream_error_text() {
    assert_eq!(stream_error_message("timeout"), "流式响应错误: timeout");
}
