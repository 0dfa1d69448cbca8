use aether_matrix::ui::templates::{user_card, GlassTemplate, Status};
use aether_matrix::ui::{
    error, error_detail, help_menu, info, info_card, leaderboard, subcommand_list, success, success_detail, warning,
};

#[test]
fn no_style_attributes() {
    let cases = [
        info_card("T", &[("k", "v")]),
        help_menu(&[("!x", "d")]),
        leaderboard("T", &["A", "B"], &[vec!["1", "Alice"]]),
        success("ok"),
        error("fail"),
        warning("w"),
        info("i"),
    ];
    for html in &cases {
        assert!(!html.contains("style="), "style= found in:\n{html}");
    }
}

#[test]
fn uses_structural_tags() {
    let card = info_card("Bot", &[("ID", "123")]);
    assert!(card.contains("<h3>"));
    assert!(card.contains("<blockquote>"));
    assert!(card.contains("<table>"));

    let menu = help_menu(&[("!ping", "测试")]);
    assert!(menu.contains("<code>!ping</code>"));
    assert!(menu.contains("<blockquote>"));
}

#[test]
fn status_uses_blockquote() {
    for html in [success("ok"), error("e"), warning("w"), info("i")] {
        assert!(html.contains("<blockquote>"));
        assert!(!html.contains("style="));
    }
}

#[test]
fn info_card_exact() {
    assert_eq!(
        info_card("Bot", &[("ID", "123")]),
        "<h3><font color=\"#6ea8ff\">◈</font> <b><font color=\"#e8eeff\">Bot</font></b></h3>\
         <blockquote><table><tr><td><font color=\"#6a7fa8\">ID</font></td>\
         <td><b><font color=\"#c8d4f0\">123</font></b></td></tr></table></blockquote>"
    );
}

#[test]
fn user_card_and_subcommands_exact() {
    assert_eq!(
        user_card("U", &[]),
        "<h3><font color=\"#7ab4ff\">◉</font> <b><font color=\"#e8eeff\">U</font></b></h3>\
         <blockquote><table></table></blockquote>"
    );
    assert_eq!(
        subcommand_list("S", &[("a", "b")]),
        "<h3><font color=\"#6ea8ff\">≡</font> <b><font color=\"#e8eeff\">S</font></b></h3>\
         <blockquote><table><tr><td><code>a</code></td><td><font color=\"#4a5a78\">b</font></td></tr>\
         </table></blockquote>"
    );
    assert_eq!(GlassTemplate::user_card("U", &[]), user_card("U", &[]));
}

#[test]
fn help_menu_exact() {
    assert_eq!(
        help_menu(&[("!ping", "测试")]),
        "<h3><font color=\"#6ea8ff\">⌨</font> <b><font color=\"#e8eeff\">命令帮助</font></b></h3>\
         <blockquote><table><tr><td><code>!ping</code></td><td><font color=\"#4a5a78\">测试</font></td></tr>\
         </table></blockquote>"
    );
}

#[test]
fn leaderboard_medals_and_gold() {
    let rows = vec![
        vec!["1", "a"],
        vec!["2", "b"],
        vec!["3", "c"],
        vec!["4", "d"],
    ];
    let html = leaderboard("榜", &["名次", "名字"], &rows);
    assert_eq!(
        html,
        "<h3><font color=\"#f0c060\">◆</font> <b><font color=\"#e8eeff\">榜</font></b></h3>\
         <blockquote><table><tr><th><font color=\"#6a7fa8\">名次</font></th><th><font color=\"#6a7fa8\">名字</font></th></tr>\
         <tr><td>🥇 <font color=\"#c8d4f0\">1</font></td><td><b><font color=\"#f0c060\">a</font></b></td></tr>\
         <tr><td>🥈 <font color=\"#c8d4f0\">2</font></td><td><font color=\"#c8d4f0\">b</font></td></tr>\
         <tr><td>🥉 <font color=\"#c8d4f0\">3</font></td><td><font color=\"#c8d4f0\">c</font></td></tr>\
         <tr><td><font color=\"#6a7fa8\">4</font></td><td><font color=\"#c8d4f0\">d</font></td></tr>\
         </table></blockquote>"
    );
}

#[test]
fn status_messages_exact() {
    assert_eq!(success("ok"), "<blockquote><b><font color=\"#48bb78\">✓  ok</font></b></blockquote>");
    assert_eq!(error("e"), "<blockquote><b><font color=\"#f06070\">✕  e</font></b></blockquote>");
    assert_eq!(warning("w"), "<blockquote><b><font color=\"#f0c060\">⚠  w</font></b></blockquote>");
    assert_eq!(info("i"), "<blockquote><b><font color=\"#6ea8ff\">ℹ  i</font></b></blockquote>");
    assert_eq!(GlassTemplate::status(Status::Info, "i"), info("i"));
}

#[test]
fn status_details_exact() {
    assert_eq!(
        success_detail("t", "d"),
        "<blockquote><b><font color=\"#48bb78\">✓ t</font></b><br><font color=\"#6a7fa8\">d</font></blockquote>"
    );
    assert_eq!(
        error_detail("t", "d"),
        "<blockquote><b><font color=\"#f06070\">✕ t</font></b><br><font color=\"#6a7fa8\">d</font></blockquote>"
    );
}

#[test]
fn user_card_differs_from_info_card_only_in_its_icon() {
    let items = [("键", "值"), ("a", "b")];
    let expected = info_card("标题", &items).replacen(
        r##"<font color="#6ea8ff">◈</font>"##,
        r##"<font color="#7ab4ff">◉</font>"##,
        1,
    );
    assert_eq!(user_card("标题", &items), expected);
}

#[test]
fn help_menu_differs_from_subcommand_list_only_in_its_icon() {
    let cmds = [("help", "显示帮助"), ("ping", "测试")];
    assert_eq!(help_menu(&cmds), subcommand_list("命令帮助", &cmds).replacen("≡", "⌨", 1));
}
