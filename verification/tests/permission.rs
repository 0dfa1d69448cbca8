use aether_matrix::command::Permission;

#[test]
fn test_permission_ordering() {
    assert!(Permission::BotOwner > Permission::RoomMod);
    assert!(Permission::RoomMod > Permission::Anyone);
}

#[test]
fn test_permission_display_name() {
    assert_eq!(Permission::Anyone.display_name(), "任何人");
    assert_eq!(Permission::RoomMod.display_name(), "房间管理员");
    assert_eq!(Permission::BotOwner.display_name(), "Bot 所有者");
}

#[test]
fn permission_levels_follow_declaration_order() {
    assert_eq!(Permission::Anyone.level(), 0);
    assert_eq!(Permission::RoomMod.level(), 1);
    assert_eq!(Permission::BotOwner.level(), 2);
}

#[test]
fn permission_grants() {
    let owners = vec!["@admin:matrix.org".to_string()];
    assert!(Permission::Anyone.check("@x:y", &owners, false, 0));
    assert!(Permission::RoomMod.check("@x:y", &owners, true, 0));
    assert!(Permission::RoomMod.check("@x:y", &owners, false, 50));
    assert!(Permission::RoomMod.check("@x:y", &owners, false, 100));
    assert!(!Permission::RoomMod.check("@x:y", &owners, false, 49));
    assert!(!Permission::RoomMod.check("@x:y", &owners, false, 0));
    assert!(!Permission::RoomMod.check("@x:y", &owners, false, i64::MIN));
    assert!(Permission::BotOwner.check("@admin:matrix.org", &owners, false, 0));
    assert!(!Permission::BotOwner.check("@x:y", &owners, true, 100));
    assert!(!Permission::BotOwner.check("@admin:matrix.org", &[], true, 100));
    assert!(Permission::RoomMod.needs_room_facts());
    assert!(!Permission::BotOwner.needs_room_facts());
}
