use aether_matrix::command::{CommandGateway, CommandInfo, Permission, Route};

#[test]
fn test_gateway_creation() {
    let gateway = CommandGateway::<()>::new("!".to_string(), vec!["@admin:matrix.org".to_string()]);
    assert!(gateway.is_command("!help"));
    assert!(!gateway.is_command("help"));
}

#[test]
fn test_gateway_parser() {
    let mut gateway = CommandGateway::<()>::new("!".to_string(), vec![]);
    gateway.parser_mut().set_prefix("!!".to_string());

    assert!(gateway.is_command("!!help"));
    assert!(!gateway.is_command("!help"));
}

#[test]
fn routing() {
    let mut gateway = CommandGateway::new("!".to_string(), vec!["@owner:x".to_string()]);
    gateway.register(CommandInfo::new("ping", "测试 Bot 响应", "ping", Permission::Anyone), 1u32);
    gateway.register(CommandInfo::new("leave", "离开", "", Permission::RoomMod), 2u32);

    assert!(matches!(gateway.dispatch("hello"), Route::Ignore));
    assert!(matches!(gateway.dispatch("!   "), Route::Ignore));
    match gateway.dispatch("!help") {
        Route::Help(t) => assert_eq!(
            t,
            "可用命令:\n\n**!leave** - 离开\n  权限: 房间管理员\n\n**!ping** - 测试 Bot 响应\n  用法: ping\n\n"
        ),
        _ => panic!("expected help"),
    }
    match gateway.dispatch("!nope a b") {
        Route::Unknown(t) => assert_eq!(t, "未知命令: nope\n\n使用 !help 查看可用命令"),
        _ => panic!("expected unknown"),
    }
    match gateway.dispatch("!leave now \"right away\"") {
        Route::Execute { handler, info, command } => {
            assert_eq!(*handler, 2);
            assert_eq!(info.permission, Permission::RoomMod);
            assert_eq!(command.cmd, "leave");
            assert_eq!(command.args, vec!["now".to_string(), "right away".to_string()]);
            assert_eq!(command.raw_msg, "!leave now \"right away\"");
        }
        _ => panic!("expected execute"),
    }
    assert_eq!(gateway.authorize(Permission::RoomMod, "@u:x", false, 0), Some("⛔ 权限不足: 需要 房间管理员".to_string()));
    assert_eq!(gateway.authorize(Permission::RoomMod, "@u:x", true, 0), None);
    assert_eq!(gateway.authorize(Permission::RoomMod, "@u:x", false, 50), None);
    assert_eq!(gateway.authorize(Permission::BotOwner, "@owner:x", false, 0), None);
}

#[test]
fn dispatch_from_refuses_without_permission() {
    let mut gateway = CommandGateway::new("!".to_string(), vec!["@owner:x".to_string()]);
    gateway.register(CommandInfo::new("ping", "测试 Bot 响应", "ping", Permission::Anyone), 1u32);
    gateway.register(CommandInfo::new("leave", "离开", "", Permission::RoomMod), 2u32);
    gateway.register(CommandInfo::new("admin", "管理", "", Permission::BotOwner), 3u32);

    match gateway.dispatch_from("!leave", "@u:x", false, 49) {
        Route::Denied(t) => assert_eq!(t, "⛔ 权限不足: 需要 房间管理员"),
        _ => panic!("expected a refusal"),
    }
    assert!(matches!(gateway.dispatch_from("!leave", "@u:x", false, 50), Route::Execute { handler: &2, .. }));
    assert!(matches!(gateway.dispatch_from("!leave", "@u:x", true, 0), Route::Execute { handler: &2, .. }));
    match gateway.dispatch_from("!admin x", "@u:x", true, 100) {
        Route::Denied(t) => assert_eq!(t, "⛔ 权限不足: 需要 Bot 所有者"),
        _ => panic!("expected a refusal"),
    }
    assert!(matches!(gateway.dispatch_from("!admin x", "@owner:x", false, 0), Route::Execute { handler: &3, .. }));
    assert!(matches!(gateway.dispatch_from("!ping", "@u:x", false, i64::MIN), Route::Execute { handler: &1, .. }));
    assert!(matches!(gateway.dispatch_from("hello", "@u:x", false, 0), Route::Ignore));
    assert!(matches!(gateway.dispatch_from("!nope", "@u:x", false, 0), Route::Unknown(_)));
    assert!(matches!(gateway.dispatch_from("!help", "@u:x", false, 0), Route::Help(_)));
}
