use aether_matrix::command::{CommandContext, Parser};

#[test]
fn parse_words_and_quotes() {
    let p = Parser::new("!".to_string());
    let c = p.parse("!persona create neko \"猫娘 助手\" 你是 一只猫").unwrap();
    assert_eq!(c.cmd, "persona");
    assert_eq!(c.args, vec!["create", "neko", "猫娘 助手", "你是", "一只猫"]);
    assert_eq!(c.raw_msg, "!persona create neko \"猫娘 助手\" 你是 一只猫");
}

#[test]
fn parse_rejects_non_commands() {
    let p = Parser::new("!ai".to_string());
    assert!(p.parse("hello").is_none());
    assert!(p.parse("!ai").is_none());
    assert!(p.parse("!ai  \t ").is_none());
    let c = p.parse("!ai  hi").unwrap();
    assert_eq!(c.cmd, "hi");
    assert!(c.args.is_empty());
}

#[test]
fn parse_unclosed_quote_runs_to_end() {
    let p = Parser::new("!".to_string());
    let c = p.parse("!say \"a b").unwrap();
    assert_eq!(c.args, vec!["a b"]);
    let c = p.parse("!say \"\" x").unwrap();
    assert_eq!(c.args, vec!["", "x"]);
    let c = p.parse("!say a\"b c").unwrap();
    assert_eq!(c.args, vec!["a\"b", "c"]);
}

#[test]
fn prefix_can_change() {
    let mut p = Parser::new("!".to_string());
    assert_eq!(p.get_prefix(), "!");
    p.set_prefix("~".to_string());
    assert!(p.is_command("~x"));
    assert!(!p.is_command("!x"));
}

#[test]
fn context_arguments() {
    let ctx = CommandContext::new(
        "!room:x".to_string(),
        "@u:x".to_string(),
        "persona".to_string(),
        vec!["set".to_string(), "neko".to_string(), "chan".to_string()],
        "!persona set neko chan".to_string(),
        "$ev".to_string(),
    );
    assert_eq!(ctx.room_id(), "!room:x");
    assert_eq!(ctx.first_arg(), Some("set"));
    assert_eq!(ctx.sub_command(), Some("set"));
    assert_eq!(ctx.sub_args(), &["neko".to_string(), "chan".to_string()]);
    assert_eq!(ctx.args_joined(), "set neko chan");

    let one = CommandContext::new(String::new(), String::new(), "x".to_string(), vec!["a".to_string()], String::new(), String::new());
    assert!(one.sub_args().is_empty());
    let none = CommandContext::new(String::new(), String::new(), "x".to_string(), vec![], String::new(), String::new());
    assert_eq!(none.first_arg(), None);
    assert!(none.sub_args().is_empty());
    assert_eq!(none.args_joined(), "");
}
