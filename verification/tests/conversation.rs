use aether_matrix::conversation::{ConversationManager, Role};

#[test]
fn test_new_manager_is_empty() {
    let manager = ConversationManager::new(None, 10);
    let messages = manager.get_messages("test-session");
    assert!(messages.is_empty());
}

#[test]
fn test_add_user_message() {
    let mut manager = ConversationManager::new(None, 10);
    manager.add_user_message("session-1", "Hello");

    let messages = manager.get_messages("session-1");
    assert_eq!(messages.len(), 1);

    match messages[0].role {
        Role::User => assert_eq!(messages[0].content, "Hello"),
        _ => panic!("Expected user message"),
    }
}

#[test]
fn test_add_assistant_message() {
    let mut manager = ConversationManager::new(None, 10);
    manager.add_user_message("session-1", "Hello");
    manager.add_assistant_message("session-1", "Hi there!");

    let messages = manager.get_messages("session-1");
    assert_eq!(messages.len(), 2);

    match messages[1].role {
        Role::Assistant => assert_eq!(messages[1].content, "Hi there!"),
        _ => panic!("Expected assistant message"),
    }
}

#[test]
fn test_history_limit() {
    let mut manager = ConversationManager::new(None, 2);

    // u1, a1, u2, a2, u3: the fifth message cuts the history to four.
    manager.add_user_message("s1", "u1");
    manager.add_assistant_message("s1", "a1");
    manager.add_user_message("s1", "u2");
    manager.add_assistant_message("s1", "a2");
    manager.add_user_message("s1", "u3");

    let messages = manager.get_messages("s1");
    assert_eq!(messages.len(), 4);

    match messages[0].role {
        Role::Assistant => assert_eq!(messages[0].content, "a1"),
        _ => panic!("Expected assistant message a1"),
    }
}

#[test]
fn test_reset_conversation() {
    let mut manager = ConversationManager::new(None, 10);
    manager.add_user_message("session-1", "Hello");
    manager.add_user_message("session-2", "World");

    manager.reset("session-1");

    assert_eq!(manager.get_messages("session-1").len(), 0);
    assert_eq!(manager.get_messages("session-2").len(), 1);
}

#[test]
fn test_system_prompt() {
    let mut manager = ConversationManager::new(Some("You are helpful.".to_string()), 10);
    manager.add_user_message("s1", "Hello");

    let messages = manager.get_messages("s1");
    assert_eq!(messages.len(), 2);

    match messages[0].role {
        Role::System => assert_eq!(messages[0].content, "You are helpful."),
        _ => panic!("Expected system message"),
    }
}

#[test]
fn test_multiple_sessions() {
    let mut manager = ConversationManager::new(None, 10);
    manager.add_user_message("session-1", "Hello from s1");
    manager.add_user_message("session-2", "Hello from s2");
    manager.add_assistant_message("session-1", "Response to s1");

    let s1_messages = manager.get_messages("session-1");
    let s2_messages = manager.get_messages("session-2");

    assert_eq!(s1_messages.len(), 2);
    assert_eq!(s2_messages.len(), 1);
}

#[test]
fn history_bound_holds_after_each_user_message() {
    let mut manager = ConversationManager::new(None, 3);
    for i in 0..20 {
        manager.add_user_message("s", &format!("u{i}"));
        assert!(manager.get_messages("s").len() <= 6);
        manager.add_assistant_message("s", &format!("a{i}"));
    }
    let messages = manager.get_messages("s");
    // The assistant message comes after the cut, so seven stay.
    assert_eq!(messages.len(), 7);
    assert_eq!(messages[6].content, "a19");
    assert_eq!(messages[5].content, "u19");
}

#[test]
fn zero_history_keeps_nothing_of_user_messages() {
    let mut manager = ConversationManager::new(None, 0);
    manager.add_user_message("s", "u");
    assert!(manager.get_messages("s").is_empty());
    manager.add_assistant_message("s", "a");
    assert_eq!(manager.get_messages("s").len(), 1);
}

#[test]
fn assistant_message_needs_a_session() {
    let mut manager = ConversationManager::new(None, 10);
    manager.add_assistant_message("ghost", "boo");
    assert!(manager.get_messages("ghost").is_empty());
}

#[test]
fn reset_keeps_system_prompt() {
    let mut manager = ConversationManager::new(Some("sys".to_string()), 10);
    manager.add_user_message("s", "x");
    manager.reset("s");
    let m = manager.get_messages("s");
    assert_eq!(m.len(), 1);
    assert_eq!(m[0].role, Role::System);
    let w = manager.get_messages_with_system("s", "other");
    assert_eq!(w.len(), 1);
    assert_eq!(w[0].content, "other");
}

#[test]
fn sessions_are_independent() {
    let mut manager = ConversationManager::new(None, 1);
    manager.add_user_message("a", "1");
    manager.add_user_message("b", "2");
    manager.add_user_message("a", "3");
    manager.add_user_message("a", "4");
    manager.reset("a");
    let b = manager.get_messages("b");
    assert_eq!(b.len(), 1);
    assert_eq!(b[0].content, "2");
}

#[test]
fn one_system_message_with_a_given_prompt() {
    let mut manager = ConversationManager::new(Some("configured".to_string()), 10);
    manager.add_user_message("s", "hi");
    manager.add_assistant_message("s", "hello");
    let messages = manager.get_messages_with_system("s", "persona");
    assert_eq!(messages.len(), 3);
    assert_eq!(messages[0].role, Role::System);
    assert_eq!(messages[0].content, "persona");
    assert_eq!(messages.iter().filter(|m| m.role == Role::System).count(), 1);
}
