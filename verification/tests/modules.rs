use aether_matrix::command::Permission;
use aether_matrix::modules::admin::{image_kind, BotAction, BotInfoHandler, BotLeaveHandler, BotPingHandler, ImageKind};
use aether_matrix::modules::persona::{
    label, plain_fallback, preview_fits, prompt_preview, valid_id, Persona, PersonaAction, PersonaHandler, PersonaStep,
};
use aether_matrix::ui::{error, info_card, success, warning};

#[test]
fn admin_commands() {
    let info = BotInfoHandler.command_info();
    assert_eq!(info.name, "bot");
    assert_eq!(info.permission, Permission::Anyone);
    assert_eq!(BotLeaveHandler.command_info().permission, Permission::RoomMod);
    assert_eq!(BotPingHandler.command_info().usage, "ping");
    let none: Vec<String> = vec![];
    let c = BotInfoHandler.route(Some("info"), &none);
    assert!(matches!(c.action, BotAction::Info));
    assert_eq!(c.permission, Permission::Anyone);
    assert!(matches!(BotInfoHandler.route(Some("ping"), &none).action, BotAction::Ping));
    match BotInfoHandler.route(None, &none).action {
        BotAction::Help(t) => assert_eq!(
            t,
            "可用子命令:\n• info - 查看 Bot 信息\n• ping - 测试响应延迟\n• name <名称> - 修改 Bot 显示名称\n• avatar <url> - 修改 Bot 头像\n• join <room_id> - 加入指定房间\n• rooms - 列出已加入的房间\n• prefix <新前缀> - 修改命令前缀\n• leave - 离开当前房间"
        ),
        _ => panic!("expected help"),
    }
    assert!(matches!(BotInfoHandler.route(Some("x"), &none).action, BotAction::Help(_)));
    assert_eq!(
        BotInfoHandler.info_text(Some("@bot:x"), None, 12),
        "**Bot 信息**\n• 用户 ID: @bot:x\n• 设备 ID: 未知\n• 已加入房间: 12 个"
    );
    assert_eq!(BotInfoHandler.info_text(None, Some("DEV"), 0), "**Bot 信息**\n• 用户 ID: 未知\n• 设备 ID: DEV\n• 已加入房间: 0 个");
    assert_eq!(BotPingHandler.reply(), "🏓 Pong!");
    assert_eq!(BotInfoHandler.ping_text(), "🏓 Pong!");
    assert_eq!(BotLeaveHandler.farewell("!r:x"), "再见！正在离开房间 !r:x ...");
}

fn neko() -> Persona {
    Persona {
        id: "neko-chan".to_string(),
        name: "猫娘助手".to_string(),
        system_prompt: "喵".to_string(),
        avatar_emoji: Some("🐱".to_string()),
        is_builtin: true,
        created_by: None,
    }
}

#[test]
fn persona_routing_and_texts() {
    let h = PersonaHandler::new(());
    assert_eq!(h.command_info().usage, "persona <set|list|off|info|create|delete>");
    assert!(matches!(h.route(Some("set")), PersonaAction::Assign));
    assert!(matches!(h.route(Some("list")), PersonaAction::List));
    assert!(matches!(h.route(Some("off")), PersonaAction::Off));
    assert!(matches!(h.route(Some("info")), PersonaAction::Info));
    assert!(matches!(h.route(Some("create")), PersonaAction::Create));
    assert!(matches!(h.route(Some("delete")), PersonaAction::Delete));
    assert!(matches!(h.route(Some("nope")), PersonaAction::Help));
    assert!(matches!(h.route(None), PersonaAction::Help));

    assert_eq!(label(&neko()), "🐱 猫娘助手 [内置]");
    assert_eq!(h.list_card(&[]), warning("暂无人设可用"));
    assert_eq!(h.list_card(&[neko()]), info_card("可用人设", &[("neko-chan", "🐱 猫娘助手 [内置]")]));
    assert_eq!(h.permission_denied(), error("权限不足: 需要房间管理员权限"));
    assert_eq!(h.persona_id(&["a".to_string(), "b".to_string()]), "a b");
    assert_eq!(h.missing_id("set"), error("请提供人设 ID: !persona set <id>"));
    assert_eq!(h.not_found("x"), error("人设不存在: x"));
    assert_eq!(h.id_taken("x"), error("人设 ID 已存在: x"));
    assert_eq!(h.delete_result("x", true), success("已删除人设: x"));
    assert_eq!(h.delete_result("x", false), error("无法删除: 人设不存在或为内置人设: x"));
    assert_eq!(h.off_success(), success("已关闭当前房间的人设\nBot 名称已恢复为: Aether"));
    assert_eq!(h.default_display_name(), "Aether");
    assert_eq!(h.set_success(&neko(), "Aether (猫娘助手)"), success("已设置人设: 🐱 猫娘助手\nBot 名称已更新为: Aether (猫娘助手)"));
    assert_eq!(
        h.help_card(),
        info_card(
            "Persona 命令",
            &[
                ("!persona list", "列出所有人设"),
                ("!persona set <id>", "设置房间人设（管理员）"),
                ("!persona off", "关闭房间人设（管理员）"),
                ("!persona info <id>", "查看人设详情"),
                ("!persona create <id> <名称> <提示词>", "创建自定义人设（管理员）"),
                ("!persona delete <id>", "删除自定义人设（管理员）"),
            ]
        )
    );
}

#[test]
fn display_names() {
    let h = PersonaHandler::new(());
    assert_eq!(h.base_display_name(Some("Aether (猫娘助手)")), "Aether");
    assert_eq!(h.base_display_name(Some("A (b) (c)")), "A");
    assert_eq!(h.base_display_name(Some("NoSuffix")), "NoSuffix");
    assert_eq!(h.base_display_name(Some("x(")), "x(");
    assert_eq!(h.base_display_name(None), "Aether");
    assert_eq!(h.display_name_with("Aether", "猫娘助手"), "Aether (猫娘助手)");
}

#[test]
fn create_arguments() {
    let h = PersonaHandler::new(());
    let args = |v: &[&str]| v.iter().map(|s| s.to_string()).collect::<Vec<String>>();
    assert_eq!(
        h.parse_create(&args(&["id", "name"]), "@u:x").err().unwrap(),
        error("参数不足\n用法: !persona create <id> \"<名称>\" \"<提示词>\"")
    );
    assert_eq!(
        h.parse_create(&args(&["bad id!", "n", "p"]), "@u:x").err().unwrap(),
        error("ID 只能包含字母、数字、连字符和下划线")
    );
    let p = h.parse_create(&args(&["猫_1-x", "猫", "你", "是", "猫"]), "@u:x").ok().unwrap();
    assert_eq!(p.id, "猫_1-x");
    assert_eq!(p.name, "猫");
    assert_eq!(p.system_prompt, "你 是 猫");
    assert_eq!(p.avatar_emoji, None);
    assert!(!p.is_builtin);
    assert_eq!(p.created_by, Some("@u:x".to_string()));
    assert_eq!(h.created(&p), success("已创建人设: 猫\n使用 !persona set 猫_1-x 来启用"));
    assert!(valid_id("abc-DEF_09"));
    assert!(!valid_id("a b"));
    assert!(valid_id(""));
}

#[test]
fn previews() {
    assert_eq!(prompt_preview("short"), "short");
    let long = "a".repeat(250);
    assert_eq!(prompt_preview(&long), format!("{}...", "a".repeat(200)));
    let exact = "b".repeat(200);
    assert_eq!(prompt_preview(&exact), exact);
    let cjk = "中".repeat(100); // 300 bytes; byte 201 ends a character? 200 is not a multiple of 3
    assert!(!cjk.is_char_boundary(200));
    assert!(!preview_fits(&cjk));
    assert!(preview_fits("short"));
    let cjk_ok = format!("{}{}", "ab", "中".repeat(100)); // byte 200 = 2 + 3*66
    assert!(cjk_ok.is_char_boundary(200));
    assert!(preview_fits(&cjk_ok));
    assert_eq!(prompt_preview(&cjk_ok), format!("ab{}...", "中".repeat(66)));
    let h = PersonaHandler::new(());
    let mut p = neko();
    p.system_prompt = long.clone();
    assert_eq!(
        h.detail_card(&p),
        info_card(
            "人设详情",
            &[("ID", "neko-chan"), ("名称", "🐱 猫娘助手 [内置]"), ("提示词预览", &format!("{}...", "a".repeat(200)))]
        )
    );
}

#[test]
fn plain_fallbacks() {
    assert_eq!(plain_fallback("<b>Hi there!</b> 你好"), "bHi thereb ");
    let many = "ab".repeat(80);
    assert_eq!(plain_fallback(&many).len(), 100);
    assert_eq!(plain_fallback(""), "");
}

#[test]
fn persona_plans() {
    let h = PersonaHandler::new(());
    let args = |v: &[&str]| v.iter().map(|s| s.to_string()).collect::<Vec<String>>();
    assert!(h.needs_room_mod(PersonaAction::Assign));
    assert!(h.needs_room_mod(PersonaAction::Delete));
    assert!(!h.needs_room_mod(PersonaAction::List));
    assert!(!h.needs_room_mod(PersonaAction::Info));
    match h.plan(PersonaAction::Assign, &args(&["neko"]), "@u:x", false) {
        PersonaStep::Reply(m) => assert_eq!(m, error("权限不足: 需要房间管理员权限")),
        _ => panic!("expected refusal"),
    }
    match h.plan(PersonaAction::Assign, &args(&["neko", "chan"]), "@u:x", true) {
        PersonaStep::Assign { id } => assert_eq!(id, "neko chan"),
        _ => panic!("expected assign"),
    }
    match h.plan(PersonaAction::Info, &args(&[]), "@u:x", false) {
        PersonaStep::Reply(m) => assert_eq!(m, error("请提供人设 ID: !persona info <id>")),
        _ => panic!("expected missing id"),
    }
    match h.plan(PersonaAction::Delete, &args(&["x"]), "@u:x", true) {
        PersonaStep::Delete { id } => assert_eq!(id, "x"),
        _ => panic!("expected delete"),
    }
    match h.plan(PersonaAction::Create, &args(&["x", "n", "p", "q"]), "@u:x", true) {
        PersonaStep::Create { persona } => {
            assert_eq!(persona.system_prompt, "p q");
            assert_eq!(persona.created_by, Some("@u:x".to_string()));
        }
        _ => panic!("expected create"),
    }
    assert!(matches!(h.plan(PersonaAction::List, &[], "@u:x", false), PersonaStep::List));
    assert!(matches!(h.plan(PersonaAction::Off, &[], "@u:x", true), PersonaStep::Off));
    match h.plan(PersonaAction::Help, &[], "@u:x", false) {
        PersonaStep::Reply(m) => assert_eq!(m, h.help_card()),
        _ => panic!("expected help"),
    }
}

#[test]
fn bot_sub_commands_with_arguments() {
    let args = vec!["My".to_string(), "Bot".to_string()];
    let none: Vec<String> = vec![];
    let c = BotInfoHandler.route(Some("name"), &args);
    assert_eq!(c.permission, Permission::BotOwner);
    match c.action {
        BotAction::Name(n) => assert_eq!(n, "My Bot"),
        _ => panic!("expected name"),
    }
    match BotInfoHandler.route(Some("name"), &none).action {
        BotAction::Usage(t) => assert_eq!(t, error("用法: !bot name <名称>")),
        _ => panic!("expected usage"),
    }
    let url = vec!["https://example.org/a.png".to_string()];
    let c = BotInfoHandler.route(Some("avatar"), &url);
    assert_eq!(c.permission, Permission::BotOwner);
    assert!(matches!(c.action, BotAction::Avatar(ref u) if u == "https://example.org/a.png"));
    let room = vec!["#room:x".to_string()];
    assert!(matches!(BotInfoHandler.route(Some("join"), &room).action, BotAction::Join(ref r) if r == "#room:x"));
    assert!(matches!(BotInfoHandler.route(Some("join"), &none).action, BotAction::Usage(_)));
    let c = BotInfoHandler.route(Some("rooms"), &none);
    assert!(matches!(c.action, BotAction::Rooms));
    assert_eq!(c.permission, Permission::BotOwner);
    let p = vec!["?".to_string()];
    let c = BotInfoHandler.route(Some("prefix"), &p);
    assert!(matches!(c.action, BotAction::Prefix(ref x) if x == "?"));
    assert_eq!(c.permission, Permission::BotOwner);
    match BotInfoHandler.route(Some("prefix"), &none).action {
        BotAction::Usage(t) => assert_eq!(t, error("用法: !bot prefix <新前缀>")),
        _ => panic!("expected usage"),
    }
    let c = BotInfoHandler.route(Some("leave"), &none);
    assert!(matches!(c.action, BotAction::Leave));
    assert_eq!(c.permission, Permission::RoomMod);
}

#[test]
fn bot_replies() {
    let h = BotInfoHandler;
    assert_eq!(h.name_updated("Neo"), success("Bot 名称已更新为: Neo"));
    assert_eq!(h.avatar_updated(), success("Bot 头像已更新"));
    assert_eq!(h.avatar_unsupported(), error("仅支持 PNG/JPEG/GIF/WebP 图片"));
    assert_eq!(h.joined("!r:x"), success("已加入房间: !r:x"));
    assert_eq!(h.prefix_updated("?"), success("命令前缀已更新为: ?"));
    assert_eq!(h.failure("修改名称失败", "boom"), error("修改名称失败: boom"));
    assert_eq!(h.rooms_card(&[]), warning("尚未加入任何房间"));
    assert_eq!(h.rooms_card(&[("!a:x", "A"), ("!b:x", "B")]), info_card("已加入的房间 (2)", &[("!a:x", "A"), ("!b:x", "B")]));
}

#[test]
fn avatar_image_kinds() {
    assert_eq!(image_kind("image/png"), Some(ImageKind::Png));
    assert_eq!(image_kind("Image/JPEG; charset=binary"), Some(ImageKind::Jpeg));
    assert_eq!(image_kind(" image/jpg "), Some(ImageKind::Jpeg));
    assert_eq!(image_kind("image/gif"), Some(ImageKind::Gif));
    assert_eq!(image_kind("IMAGE/WEBP"), Some(ImageKind::Webp));
    assert_eq!(image_kind("image/svg+xml"), None);
    assert_eq!(image_kind("text/html; charset=utf-8"), None);
    assert_eq!(image_kind(""), None);
    assert_eq!(ImageKind::Jpeg.mime(), "image/jpeg");
    assert_eq!(ImageKind::Webp.mime(), "image/webp");
}
