use overlay_assistant::conversation::{Conversation, Role, DEFAULT_CAPACITY};

#[test]
fn new_store_is_empty_with_default_capacity() {
    let c = Conversation::new();
    assert_eq!(c.len(), 0);
    assert_eq!(c.max_messages(), DEFAULT_CAPACITY);
    assert_eq!(DEFAULT_CAPACITY, 20);
}

#[test]
fn appends_never_exceed_capacity_and_keep_the_latest() {
    let mut c = Conversation::new();
    for i in 0..25u64 {
        c.add_message(Role::User, format!("m{}", i), 1000 + i);
        assert!(c.len() <= 20);
    }
    assert_eq!(c.len(), 20);
    assert_eq!(c.len(), c.max_messages());
    let h = c.history();
    for (k, m) in h.iter().enumerate() {
        assert_eq!(m.content, format!("m{}", k + 5));
        assert_eq!(m.timestamp, 1005 + k as u64);
    }
}

#[test]
fn small_capacity_evicts_oldest_first() {
    let mut c = Conversation::with_capacity(2);
    c.add_message(Role::User, "a".to_string(), 1);
    c.add_message(Role::Assistant, "b".to_string(), 2);
    c.add_message(Role::User, "c".to_string(), 3);
    let h = c.history();
    assert_eq!(h.len(), 2);
    assert_eq!(h[0].content, "b");
    assert_eq!(h[0].role, Role::Assistant);
    assert_eq!(h[1].content, "c");
}

#[test]
fn zero_capacity_keeps_nothing() {
    let mut c = Conversation::with_capacity(0);
    c.add_message(Role::User, "a".to_string(), 1);
    assert_eq!(c.len(), 0);
    assert_eq!(c.get_context(), "");
}

#[test]
fn ids_are_distinct_and_returned() {
    let mut c = Conversation::new();
    let a = c.add_message(Role::User, "a".to_string(), 1);
    let b = c.add_message(Role::User, "b".to_string(), 2);
    assert_ne!(a, b);
    assert_eq!(a.len(), 36);
    let h = c.history();
    assert_eq!(h[0].id, a);
    assert_eq!(h[1].id, b);
}

#[test]
fn empty_store_renders_empty_context() {
    let c = Conversation::new();
    assert_eq!(c.get_context(), "");
}

#[test]
fn context_has_one_line_per_message_in_order() {
    let mut c = Conversation::new();
    c.add_message(Role::User, "Hello".to_string(), 1);
    c.add_message(Role::Assistant, "Hi there".to_string(), 2);
    c.add_message(Role::User, "How are you?".to_string(), 3);
    let ctx = c.get_context();
    assert_eq!(ctx, "user: Hello\nassistant: Hi there\nuser: How are you?");
    assert_eq!(ctx.lines().count(), 3);
}

#[test]
fn clear_twice_leaves_store_empty() {
    let mut c = Conversation::new();
    c.add_message(Role::User, "x".to_string(), 1);
    c.clear();
    assert_eq!(c.len(), 0);
    assert!(c.history().is_empty());
    c.clear();
    assert_eq!(c.len(), 0);
    assert!(c.history().is_empty());
    assert_eq!(c.max_messages(), 20);
}

#[test]
fn history_is_a_snapshot() {
    let mut c = Conversation::new();
    c.add_message(Role::User, "x".to_string(), 7);
    let h = c.history();
    c.clear();
    assert_eq!(h.len(), 1);
    assert_eq!(h[0].content, "x");
    assert_eq!(h[0].timestamp, 7);
    assert_eq!(h[0].role, Role::User);
}

#[test]
fn role_names() {
    assert_eq!(Role::User.name(), "user");
    assert_eq!(Role::Assistant.name(), "assistant");
}
