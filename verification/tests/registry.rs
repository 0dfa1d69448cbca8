use aether_matrix::command::{CommandInfo, CommandRegistry, Permission};

#[test]
fn register_get_and_replace() {
    let mut r: CommandRegistry<&str> = CommandRegistry::new();
    r.register(CommandInfo::named("zeta"), "z");
    r.register(CommandInfo::named("alpha"), "a");
    r.register(CommandInfo::named("mid"), "m");
    assert_eq!(r.commands(), vec!["alpha", "mid", "zeta"]);
    assert_eq!(r.get("mid"), Some(&"m"));
    assert_eq!(r.get("none"), None);

    r.register(CommandInfo::new("mid", "new", "", Permission::BotOwner), "m2");
    assert_eq!(r.commands(), vec!["alpha", "mid", "zeta"]);
    assert_eq!(r.get("mid"), Some(&"m2"));
    assert_eq!(r.get("alpha"), Some(&"a"));
    let (info, h) = r.get_entry("mid").unwrap();
    assert_eq!(info.description, "new");
    assert_eq!(*h, "m2");
}

#[test]
fn help_text_in_name_order() {
    let mut r: CommandRegistry<()> = CommandRegistry::default();
    assert_eq!(r.generate_help(), "可用命令:\n\n");
    r.register(CommandInfo::named("b"), ());
    r.register(CommandInfo::new("a", "desc", "a <x>", Permission::BotOwner), ());
    assert_eq!(
        r.generate_help(),
        "可用命令:\n\n**!a** - desc\n  用法: a <x>\n  权限: Bot 所有者\n\n**!b** - 暂无描述\n\n"
    );
}

#[test]
fn byte_order_of_names() {
    let mut r: CommandRegistry<()> = CommandRegistry::new();
    for n in ["b", "B", "ab", "a", "", "é", "z"] {
        r.register(CommandInfo::named(n), ());
    }
    let mut expected = vec!["b", "B", "ab", "a", "", "é", "z"];
    expected.sort();
    assert_eq!(r.commands(), expected);
}

#[test]
fn register_adds_exactly_its_name() {
    let mut r: CommandRegistry<u8> = CommandRegistry::new();
    r.register(CommandInfo::named("b"), 1);
    r.register(CommandInfo::named("a"), 2);
    assert_eq!(r.commands(), vec!["a", "b"]);
    r.register(CommandInfo::named("c"), 3);
    assert_eq!(r.commands(), vec!["a", "b", "c"]);
    r.register(CommandInfo::named("a"), 4);
    assert_eq!(r.commands(), vec!["a", "b", "c"]);
    assert_eq!(r.get("a"), Some(&4));
}
