use cyber_crush::registry::ConnectionRegistry;

#[test]
fn register_appends_in_order() {
    let mut reg = ConnectionRegistry::new();
    assert!(reg.broadcast_targets(1).is_empty());
    reg.register(1, 10, 100);
    reg.register(1, 11, 101);
    reg.register(2, 10, 102);
    assert_eq!(reg.broadcast_targets(1), vec![(10, 100u64), (11, 101u64)]);
    assert_eq!(reg.broadcast_targets(2), vec![(10, 102u64)]);
}

#[test]
fn unregister_removes_every_entry_of_the_user() {
    let mut reg = ConnectionRegistry::new();
    reg.register(1, 10, 100);
    reg.register(1, 11, 101);
    reg.register(1, 10, 103);
    reg.register(2, 10, 104);
    reg.unregister(1, 10);
    assert_eq!(reg.broadcast_targets(1), vec![(11, 101u64)]);
    assert_eq!(reg.broadcast_targets(2), vec![(10, 104u64)]);
    reg.unregister(1, 10);
    assert_eq!(reg.broadcast_targets(1), vec![(11, 101u64)]);
    reg.unregister(9, 10);
    assert!(reg.broadcast_targets(9).is_empty());
}

#[test]
fn recipients_skip_sender_user_and_connection() {
    let mut reg = ConnectionRegistry::new();
    reg.register(1, 10, 100);
    reg.register(1, 11, 101);
    reg.register(1, 10, 102);
    reg.register(1, 12, 103);
    assert_eq!(reg.recipients_of(1, 10, 100), vec![101u64, 103u64]);
    assert_eq!(reg.recipients_of(1, 11, 103), vec![100u64, 102u64]);
    assert!(reg.recipients_of(5, 10, 100).is_empty());
}

#[test]
fn tokens_bind_and_unbind() {
    let mut reg = ConnectionRegistry::new();
    let t = "tok".to_string();
    assert_eq!(reg.bound_chat(&t), None);
    reg.bind_token(&t, 4);
    assert_eq!(reg.bound_chat(&t), Some(4));
    reg.bind_token(&t, 5);
    assert_eq!(reg.bound_chat(&t), Some(5));
    reg.unbind_token(&t);
    assert_eq!(reg.bound_chat(&t), None);
    reg.unbind_token(&t);
    assert_eq!(reg.bound_chat(&t), None);
}

#[test]
fn connect_and_disconnect_go_together() {
    let mut reg = ConnectionRegistry::new();
    let t = "tok".to_string();
    reg.connect(&t, 3, 7, 70);
    assert_eq!(reg.bound_chat(&t), Some(3));
    assert_eq!(reg.broadcast_targets(3), vec![(7, 70u64)]);
    reg.disconnect(&t, 3, 7);
    assert_eq!(reg.bound_chat(&t), None);
    assert!(reg.broadcast_targets(3).is_empty());
}
