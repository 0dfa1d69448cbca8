//! The templates never produce a `style=` attribute of their own: a `style=`
//! in their output can only come from the text put into them.

use vstd::prelude::*;
use crate::text::{contains_seq, occurs_at};
use crate::ui::templates::{
    COLOR_ACCENT, COLOR_CMD, COLOR_DIM, COLOR_ERROR, COLOR_GOLD, COLOR_KEY, COLOR_SUCCESS, COLOR_TITLE, COLOR_VALUE,
    COLOR_WARNING, Status, bold_html, board_rows_html, card_html, cell_content_html, cells_html, cmd_row_html,
    cmd_rows_html, code_html, fc_html, header_cells_html, help_menu_html, info_card_html, kv_row_html, kv_rows_html,
    leaderboard_html, medal, status_color, status_detail_html, status_html, status_icon, subcommand_list_html,
    user_card_html,
};

verus! {

/// `s` holds no `style=`.
pub open spec fn style_free(s: Seq<char>) -> bool {
    !contains_seq(s, "style="@)
}

/// A character that cannot end the `style` of a `style=` nor start its rest.
pub open spec fn neutral(c: char) -> bool {
    c != 's' && c != 't' && c != 'y' && c != 'l' && c != 'e' && c != '='
}

/// `s` is not empty and begins and ends with neutral characters.
pub open spec fn neutral_ends(s: Seq<char>) -> bool {
    s.len() > 0 && neutral(s[0]) && neutral(s.last())
}

proof fn lemma_style_pattern()
    ensures
        "style="@ == seq!['s', 't', 'y', 'l', 'e', '='],
{
    reveal_strlit("style=");
    assert("style="@ =~= seq!['s', 't', 'y', 'l', 'e', '=']);
}

/// A sequence without `=` holds no `style=`.
proof fn lemma_no_eq(s: Seq<char>)
    requires
        forall|i: int| 0 <= i < s.len() ==> s[i] != '=',
    ensures
        style_free(s),
{
    lemma_style_pattern();
    assert forall|k: int| !occurs_at(s, "style="@, k) by {
        if occurs_at(s, "style="@, k) {
            assert(s.subrange(k, k + 6)[5] == '=');
        }
    }
}

proof fn lit_font_close()
    ensures
        style_free("</font>"@),
        neutral_ends("</font>"@),
{
    reveal_strlit("</font>");
    assert("</font>"@ =~= seq!['<', '/', 'f', 'o', 'n', 't', '>']);
    lemma_no_eq("</font>"@);
}

proof fn lit_gt()
    ensures
        style_free("\">"@),
        neutral_ends("\">"@),
{
    reveal_strlit("\">");
    assert("\">"@ =~= seq!['"', '>']);
    lemma_no_eq("\">"@);
}

proof fn lit_b_open()
    ensures
        style_free("<b>"@),
        neutral_ends("<b>"@),
{
    reveal_strlit("<b>");
    assert("<b>"@ =~= seq!['<', 'b', '>']);
    lemma_no_eq("<b>"@);
}

proof fn lit_b_close()
    ensures
        style_free("</b>"@),
        neutral_ends("</b>"@),
{
    reveal_strlit("</b>");
    assert("</b>"@ =~= seq!['<', '/', 'b', '>']);
    lemma_no_eq("</b>"@);
}

proof fn lit_code_open()
    ensures
        style_free("<code>"@),
        neutral_ends("<code>"@),
{
    reveal_strlit("<code>");
    assert("<code>"@ =~= seq!['<', 'c', 'o', 'd', 'e', '>']);
    lemma_no_eq("<code>"@);
}

proof fn lit_code_close()
    ensures
        style_free("</code>"@),
        neutral_ends("</code>"@),
{
    reveal_strlit("</code>");
    assert("</code>"@ =~= seq!['<', '/', 'c', 'o', 'd', 'e', '>']);
    lemma_no_eq("</code>"@);
}

proof fn lit_row_open()
    ensures
        style_free("<tr><td>"@),
        neutral_ends("<tr><td>"@),
{
    reveal_strlit("<tr><td>");
    assert("<tr><td>"@ =~= seq!['<', 't', 'r', '>', '<', 't', 'd', '>']);
    lemma_no_eq("<tr><td>"@);
}

proof fn lit_cell_sep()
    ensures
        style_free("</td><td>"@),
        neutral_ends("</td><td>"@),
{
    reveal_strlit("</td><td>");
    assert("</td><td>"@ =~= seq!['<', '/', 't', 'd', '>', '<', 't', 'd', '>']);
    lemma_no_eq("</td><td>"@);
}

proof fn lit_row_close()
    ensures
        style_free("</td></tr>"@),
        neutral_ends("</td></tr>"@),
{
    reveal_strlit("</td></tr>");
    assert("</td></tr>"@ =~= seq!['<', '/', 't', 'd', '>', '<', '/', 't', 'r', '>']);
    lemma_no_eq("</td></tr>"@);
}

proof fn lit_h3()
    ensures
        style_free("<h3>"@),
        neutral_ends("<h3>"@),
{
    reveal_strlit("<h3>");
    assert("<h3>"@ =~= seq!['<', 'h', '3', '>']);
    lemma_no_eq("<h3>"@);
}

proof fn lit_space()
    ensures
        style_free(" "@),
        neutral_ends(" "@),
{
    reveal_strlit(" ");
    assert(" "@ =~= seq![' ']);
    lemma_no_eq(" "@);
}

proof fn lit_card_mid()
    ensures
        style_free("</h3><blockquote><table>"@),
        neutral_ends("</h3><blockquote><table>"@),
{
    reveal_strlit("</h3><blockquote><table>");
    assert("</h3><blockquote><table>"@ =~= seq!['<', '/', 'h', '3', '>', '<', 'b', 'l', 'o', 'c', 'k', 'q', 'u', 'o', 't', 'e', '>', '<', 't', 'a', 'b', 'l', 'e', '>']);
    lemma_no_eq("</h3><blockquote><table>"@);
}

proof fn lit_card_end()
    ensures
        style_free("</table></blockquote>"@),
        neutral_ends("</table></blockquote>"@),
{
    reveal_strlit("</table></blockquote>");
    assert("</table></blockquote>"@ =~= seq!['<', '/', 't', 'a', 'b', 'l', 'e', '>', '<', '/', 'b', 'l', 'o', 'c', 'k', 'q', 'u', 'o', 't', 'e', '>']);
    lemma_no_eq("</table></blockquote>"@);
}

proof fn lit_td()
    ensures
        style_free("<td>"@),
        neutral_ends("<td>"@),
{
    reveal_strlit("<td>");
    assert("<td>"@ =~= seq!['<', 't', 'd', '>']);
    lemma_no_eq("<td>"@);
}

proof fn lit_td_close()
    ensures
        style_free("</td>"@),
        neutral_ends("</td>"@),
{
    reveal_strlit("</td>");
    assert("</td>"@ =~= seq!['<', '/', 't', 'd', '>']);
    lemma_no_eq("</td>"@);
}

proof fn lit_tr()
    ensures
        style_free("<tr>"@),
        neutral_ends("<tr>"@),
{
    reveal_strlit("<tr>");
    assert("<tr>"@ =~= seq!['<', 't', 'r', '>']);
    lemma_no_eq("<tr>"@);
}

proof fn lit_tr_close()
    ensures
        style_free("</tr>"@),
        neutral_ends("</tr>"@),
{
    reveal_strlit("</tr>");
    assert("</tr>"@ =~= seq!['<', '/', 't', 'r', '>']);
    lemma_no_eq("</tr>"@);
}

proof fn lit_th()
    ensures
        style_free("<th>"@),
        neutral_ends("<th>"@),
{
    reveal_strlit("<th>");
    assert("<th>"@ =~= seq!['<', 't', 'h', '>']);
    lemma_no_eq("<th>"@);
}

proof fn lit_th_close()
    ensures
        style_free("</th>"@),
        neutral_ends("</th>"@),
{
    reveal_strlit("</th>");
    assert("</th>"@ =~= seq!['<', '/', 't', 'h', '>']);
    lemma_no_eq("</th>"@);
}

proof fn lit_board_mid()
    ensures
        style_free("</h3><blockquote><table><tr>"@),
        neutral_ends("</h3><blockquote><table><tr>"@),
{
    reveal_strlit("</h3><blockquote><table><tr>");
    assert("</h3><blockquote><table><tr>"@ =~= seq!['<', '/', 'h', '3', '>', '<', 'b', 'l', 'o', 'c', 'k', 'q', 'u', 'o', 't', 'e', '>', '<', 't', 'a', 'b', 'l', 'e', '>', '<', 't', 'r', '>']);
    lemma_no_eq("</h3><blockquote><table><tr>"@);
}

proof fn lit_bq()
    ensures
        style_free("<blockquote>"@),
        neutral_ends("<blockquote>"@),
{
    reveal_strlit("<blockquote>");
    assert("<blockquote>"@ =~= seq!['<', 'b', 'l', 'o', 'c', 'k', 'q', 'u', 'o', 't', 'e', '>']);
    lemma_no_eq("<blockquote>"@);
}

proof fn lit_bq_close()
    ensures
        style_free("</blockquote>"@),
        neutral_ends("</blockquote>"@),
{
    reveal_strlit("</blockquote>");
    assert("</blockquote>"@ =~= seq!['<', '/', 'b', 'l', 'o', 'c', 'k', 'q', 'u', 'o', 't', 'e', '>']);
    lemma_no_eq("</blockquote>"@);
}

proof fn lit_two_spaces()
    ensures
        style_free("  "@),
        neutral_ends("  "@),
{
    reveal_strlit("  ");
    assert("  "@ =~= seq![' ', ' ']);
    lemma_no_eq("  "@);
}

proof fn lit_br()
    ensures
        style_free("<br>"@),
        neutral_ends("<br>"@),
{
    reveal_strlit("<br>");
    assert("<br>"@ =~= seq!['<', 'b', 'r', '>']);
    lemma_no_eq("<br>"@);
}

proof fn lit_title_color()
    ensures
        style_free("#e8eeff"@),
{
    reveal_strlit("#e8eeff");
    assert("#e8eeff"@ =~= seq!['#', 'e', '8', 'e', 'e', 'f', 'f']);
    lemma_no_eq("#e8eeff"@);
}

proof fn lit_accent_color()
    ensures
        style_free("#6ea8ff"@),
{
    reveal_strlit("#6ea8ff");
    assert("#6ea8ff"@ =~= seq!['#', '6', 'e', 'a', '8', 'f', 'f']);
    lemma_no_eq("#6ea8ff"@);
}

proof fn lit_key_color()
    ensures
        style_free("#6a7fa8"@),
{
    reveal_strlit("#6a7fa8");
    assert("#6a7fa8"@ =~= seq!['#', '6', 'a', '7', 'f', 'a', '8']);
    lemma_no_eq("#6a7fa8"@);
}

proof fn lit_value_color()
    ensures
        style_free("#c8d4f0"@),
{
    reveal_strlit("#c8d4f0");
    assert("#c8d4f0"@ =~= seq!['#', 'c', '8', 'd', '4', 'f', '0']);
    lemma_no_eq("#c8d4f0"@);
}

proof fn lit_dim_color()
    ensures
        style_free("#4a5a78"@),
{
    reveal_strlit("#4a5a78");
    assert("#4a5a78"@ =~= seq!['#', '4', 'a', '5', 'a', '7', '8']);
    lemma_no_eq("#4a5a78"@);
}

proof fn lit_cmd_color()
    ensures
        style_free("#7ab4ff"@),
{
    reveal_strlit("#7ab4ff");
    assert("#7ab4ff"@ =~= seq!['#', '7', 'a', 'b', '4', 'f', 'f']);
    lemma_no_eq("#7ab4ff"@);
}

proof fn lit_success_color()
    ensures
        style_free("#48bb78"@),
{
    reveal_strlit("#48bb78");
    assert("#48bb78"@ =~= seq!['#', '4', '8', 'b', 'b', '7', '8']);
    lemma_no_eq("#48bb78"@);
}

proof fn lit_error_color()
    ensures
        style_free("#f06070"@),
{
    reveal_strlit("#f06070");
    assert("#f06070"@ =~= seq!['#', 'f', '0', '6', '0', '7', '0']);
    lemma_no_eq("#f06070"@);
}

proof fn lit_warning_color()
    ensures
        style_free("#f0c060"@),
{
    reveal_strlit("#f0c060");
    assert("#f0c060"@ =~= seq!['#', 'f', '0', 'c', '0', '6', '0']);
    lemma_no_eq("#f0c060"@);
}

proof fn lit_info_icon()
    ensures
        style_free("◈"@),
{
    reveal_strlit("◈");
    assert("◈"@ =~= seq!['◈']);
    lemma_no_eq("◈"@);
}

proof fn lit_user_icon()
    ensures
        style_free("◉"@),
{
    reveal_strlit("◉");
    assert("◉"@ =~= seq!['◉']);
    lemma_no_eq("◉"@);
}

proof fn lit_help_icon()
    ensures
        style_free("⌨"@),
{
    reveal_strlit("⌨");
    assert("⌨"@ =~= seq!['⌨']);
    lemma_no_eq("⌨"@);
}

proof fn lit_list_icon()
    ensures
        style_free("≡"@),
{
    reveal_strlit("≡");
    assert("≡"@ =~= seq!['≡']);
    lemma_no_eq("≡"@);
}

proof fn lit_board_icon()
    ensures
        style_free("◆"@),
{
    reveal_strlit("◆");
    assert("◆"@ =~= seq!['◆']);
    lemma_no_eq("◆"@);
}

proof fn lit_help_title()
    ensures
        style_free("命令帮助"@),
{
    reveal_strlit("命令帮助");
    assert("命令帮助"@ =~= seq!['命', '令', '帮', '助']);
    lemma_no_eq("命令帮助"@);
}

proof fn lit_gold()
    ensures
        style_free("🥇"@),
{
    reveal_strlit("🥇");
    assert("🥇"@ =~= seq!['🥇']);
    lemma_no_eq("🥇"@);
}

proof fn lit_silver()
    ensures
        style_free("🥈"@),
{
    reveal_strlit("🥈");
    assert("🥈"@ =~= seq!['🥈']);
    lemma_no_eq("🥈"@);
}

proof fn lit_bronze()
    ensures
        style_free("🥉"@),
{
    reveal_strlit("🥉");
    assert("🥉"@ =~= seq!['🥉']);
    lemma_no_eq("🥉"@);
}

proof fn lit_ok()
    ensures
        style_free("✓"@),
{
    reveal_strlit("✓");
    assert("✓"@ =~= seq!['✓']);
    lemma_no_eq("✓"@);
}

proof fn lit_fail()
    ensures
        style_free("✕"@),
{
    reveal_strlit("✕");
    assert("✕"@ =~= seq!['✕']);
    lemma_no_eq("✕"@);
}

proof fn lit_warn()
    ensures
        style_free("⚠"@),
{
    reveal_strlit("⚠");
    assert("⚠"@ =~= seq!['⚠']);
    lemma_no_eq("⚠"@);
}

proof fn lit_note()
    ensures
        style_free("ℹ"@),
{
    reveal_strlit("ℹ");
    assert("ℹ"@ =~= seq!['ℹ']);
    lemma_no_eq("ℹ"@);
}

proof fn lit_font_open()
    ensures
        style_free("<font color=\""@),
        neutral_ends("<font color=\""@),
{
    reveal_strlit("<font color=\"");
    let s = "<font color=\""@;
    assert(s =~= seq!['<', 'f', 'o', 'n', 't', ' ', 'c', 'o', 'l', 'o', 'r', '=', '"']);
    lemma_style_pattern();
    assert forall|k: int| !occurs_at(s, "style="@, k) by {
        if occurs_at(s, "style="@, k) {
            assert(s.subrange(k, k + 6)[5] == '=');
            assert(s.subrange(k, k + 6)[0] == 's');
        }
    }
}

/// Joining two pieces adds no `style=` when one side of the seam is neutral.
proof fn lemma_cat(a: Seq<char>, b: Seq<char>)
    requires
        style_free(a),
        style_free(b),
        a.len() == 0 || b.len() == 0 || neutral(a.last()) || neutral(b[0]),
    ensures
        style_free(a + b),
{
    lemma_style_pattern();
    let p = "style="@;
    let c = a + b;
    assert forall|k: int| !occurs_at(c, p, k) by {
        if occurs_at(c, p, k) {
            let w = c.subrange(k, k + 6);
            if k + 6 <= a.len() {
                assert(a.subrange(k, k + 6) =~= w);
                assert(occurs_at(a, p, k));
            } else if k >= a.len() {
                assert(b.subrange(k - a.len(), k - a.len() + 6) =~= w);
                assert(occurs_at(b, p, k - a.len()));
            } else {
                let j = a.len() - k;
                assert(a.last() == w[j - 1]);
                assert(b[0] == w[j]);
            }
        }
    }
}

/// A neutral piece after a style-free prefix.
proof fn lemma_then(a: Seq<char>, x: Seq<char>)
    requires
        style_free(a),
        style_free(x),
        neutral_ends(x),
    ensures
        style_free(a + x),
        neutral(( a + x).last()),
        a.len() > 0 ==> (a + x)[0] == a[0],
        a.len() == 0 ==> neutral((a + x)[0]),
{
    lemma_cat(a, x);
}

/// A style-free piece after a prefix that ends neutral.
proof fn lemma_after(a: Seq<char>, x: Seq<char>)
    requires
        style_free(a),
        style_free(x),
        a.len() > 0,
        neutral(a.last()),
    ensures
        style_free(a + x),
        (a + x)[0] == a[0],
        x.len() == 0 ==> (a + x).last() == a.last(),
{
    lemma_cat(a, x);
    if x.len() == 0 {
        assert(a + x =~= a);
    }
}

proof fn lemma_fc(color: Seq<char>, s: Seq<char>)
    requires
        style_free(color),
        style_free(s),
    ensures
        style_free(fc_html(color, s)),
        neutral_ends(fc_html(color, s)),
{
    lit_font_open();
    lit_gt();
    lit_font_close();
    let a = "<font color=\""@;
    lemma_after(a, color);
    lemma_then(a + color, "\">"@);
    lemma_after(a + color + "\">"@, s);
    lemma_then(a + color + "\">"@ + s, "</font>"@);
}

proof fn lemma_wrap(open: Seq<char>, x: Seq<char>, close: Seq<char>)
    requires
        style_free(open),
        neutral_ends(open),
        style_free(x),
        style_free(close),
        neutral_ends(close),
    ensures
        style_free(open + x + close),
        neutral_ends(open + x + close),
{
    lemma_after(open, x);
    lemma_then(open + x, close);
}

proof fn lemma_bold(s: Seq<char>)
    requires
        style_free(s),
    ensures
        style_free(bold_html(s)),
        neutral_ends(bold_html(s)),
{
    lit_b_open();
    lit_b_close();
    lemma_wrap("<b>"@, s, "</b>"@);
}

proof fn lemma_code(s: Seq<char>)
    requires
        style_free(s),
    ensures
        style_free(code_html(s)),
        neutral_ends(code_html(s)),
{
    lit_code_open();
    lit_code_close();
    lemma_wrap("<code>"@, s, "</code>"@);
}

/// Four neutral pieces in a row.
proof fn lemma_chain(a: Seq<char>, b: Seq<char>, c: Seq<char>, d: Seq<char>, e: Seq<char>)
    requires
        style_free(a) && neutral_ends(a),
        style_free(b) && neutral_ends(b),
        style_free(c) && neutral_ends(c),
        style_free(d) && neutral_ends(d),
        style_free(e) && neutral_ends(e),
    ensures
        style_free(a + b + c + d + e),
        neutral_ends(a + b + c + d + e),
{
    lemma_then(a, b);
    lemma_then(a + b, c);
    lemma_then(a + b + c, d);
    lemma_then(a + b + c + d, e);
}

proof fn lemma_kv_row(k: Seq<char>, v: Seq<char>)
    requires
        style_free(k),
        style_free(v),
    ensures
        style_free(kv_row_html(k, v)),
        neutral_ends(kv_row_html(k, v)),
{
    lit_row_open();
    lit_cell_sep();
    lit_row_close();
    lit_key_color();
    lit_value_color();
    lemma_fc(COLOR_KEY@, k);
    lemma_fc(COLOR_VALUE@, v);
    lemma_bold(fc_html(COLOR_VALUE@, v));
    lemma_chain("<tr><td>"@, fc_html(COLOR_KEY@, k), "</td><td>"@, bold_html(fc_html(COLOR_VALUE@, v)), "</td></tr>"@);
}

proof fn lemma_cmd_row(n: Seq<char>, d: Seq<char>)
    requires
        style_free(n),
        style_free(d),
    ensures
        style_free(cmd_row_html(n, d)),
        neutral_ends(cmd_row_html(n, d)),
{
    lit_row_open();
    lit_cell_sep();
    lit_row_close();
    lit_dim_color();
    lemma_code(n);
    lemma_fc(COLOR_DIM@, d);
    lemma_chain("<tr><td>"@, code_html(n), "</td><td>"@, fc_html(COLOR_DIM@, d), "</td></tr>"@);
}

/// Every text of a list of pairs is free of `style=`.
pub open spec fn pairs_style_free(items: Seq<(Seq<char>, Seq<char>)>) -> bool {
    forall|i: int| 0 <= i < items.len() ==> style_free(#[trigger] items[i].0) && style_free(items[i].1)
}

/// Empty, or neutral at both ends.
pub open spec fn empty_or_neutral(s: Seq<char>) -> bool {
    s.len() == 0 || neutral_ends(s)
}

proof fn lemma_then_maybe(a: Seq<char>, x: Seq<char>)
    requires
        style_free(a),
        empty_or_neutral(a),
        style_free(x),
        neutral_ends(x),
    ensures
        style_free(a + x),
        neutral_ends(a + x),
{
    lemma_then(a, x);
}

proof fn lemma_kv_rows(items: Seq<(Seq<char>, Seq<char>)>)
    requires
        pairs_style_free(items),
    ensures
        style_free(kv_rows_html(items)),
        empty_or_neutral(kv_rows_html(items)),
    decreases items.len(),
{
    if items.len() == 0 {
        lemma_no_eq(Seq::<char>::empty());
    } else {
        let init = items.drop_last();
        assert(pairs_style_free(init)) by {
            assert forall|i: int| 0 <= i < init.len() implies style_free(#[trigger] init[i].0) && style_free(init[i].1) by {
                assert(init[i] == items[i]);
            }
        }
        lemma_kv_rows(init);
        assert(style_free(items[items.len() - 1].0));
        lemma_kv_row(items.last().0, items.last().1);
        lemma_then_maybe(kv_rows_html(init), kv_row_html(items.last().0, items.last().1));
    }
}

proof fn lemma_cmd_rows(items: Seq<(Seq<char>, Seq<char>)>)
    requires
        pairs_style_free(items),
    ensures
        style_free(cmd_rows_html(items)),
        empty_or_neutral(cmd_rows_html(items)),
    decreases items.len(),
{
    if items.len() == 0 {
        lemma_no_eq(Seq::<char>::empty());
    } else {
        let init = items.drop_last();
        assert(pairs_style_free(init)) by {
            assert forall|i: int| 0 <= i < init.len() implies style_free(#[trigger] init[i].0) && style_free(init[i].1) by {
                assert(init[i] == items[i]);
            }
        }
        lemma_cmd_rows(init);
        assert(style_free(items[items.len() - 1].0));
        lemma_cmd_row(items.last().0, items.last().1);
        lemma_then_maybe(cmd_rows_html(init), cmd_row_html(items.last().0, items.last().1));
    }
}

proof fn lemma_card(icon_color: Seq<char>, icon: Seq<char>, title: Seq<char>, rows: Seq<char>)
    requires
        style_free(icon_color),
        style_free(icon),
        style_free(title),
        style_free(rows),
        empty_or_neutral(rows),
    ensures
        style_free(card_html(icon_color, icon, title, rows)),
{
    lit_h3();
    lit_space();
    lit_card_mid();
    lit_card_end();
    lit_title_color();
    lemma_fc(icon_color, icon);
    lemma_fc(COLOR_TITLE@, title);
    lemma_bold(fc_html(COLOR_TITLE@, title));
    let head = "<h3>"@ + fc_html(icon_color, icon) + " "@ + bold_html(fc_html(COLOR_TITLE@, title)) + "</h3><blockquote><table>"@;
    lemma_chain("<h3>"@, fc_html(icon_color, icon), " "@, bold_html(fc_html(COLOR_TITLE@, title)), "</h3><blockquote><table>"@);
    lemma_cat(head, rows);
    if rows.len() > 0 {
        lemma_then(head, rows);
    } else {
        assert(head + rows =~= head);
    }
    lemma_then(head + rows, "</table></blockquote>"@);
}

proof fn lemma_cell_content(i: int, ci: int, cell: Seq<char>)
    requires
        0 <= i,
        style_free(cell),
    ensures
        style_free(cell_content_html(i, ci, cell)),
        neutral_ends(cell_content_html(i, ci, cell)),
{
    lit_value_color();
    lit_key_color();
    lit_space();
    lemma_fc(COLOR_VALUE@, cell);
    lemma_fc(COLOR_KEY@, cell);
    if ci == 0 {
        if i < 3 {
            lit_gold();
            lit_silver();
            lit_bronze();
            let m = medal(i);
            assert(neutral_ends(m)) by {
                reveal_strlit("🥇");
                reveal_strlit("🥈");
                reveal_strlit("🥉");
                assert("🥇"@ =~= seq!['🥇']);
                assert("🥈"@ =~= seq!['🥈']);
                assert("🥉"@ =~= seq!['🥉']);
            }
            lemma_then(m, " "@);
            lemma_then(m + " "@, fc_html(COLOR_VALUE@, cell));
        }
    } else if i == 0 {
        lit_warning_color();
        lemma_fc(COLOR_GOLD@, cell);
        lemma_bold(fc_html(COLOR_GOLD@, cell));
    }
}

/// Every text of a list is free of `style=`.
pub open spec fn all_style_free(items: Seq<Seq<char>>) -> bool {
    forall|i: int| 0 <= i < items.len() ==> style_free(#[trigger] items[i])
}

proof fn lemma_cells(i: int, row: Seq<Seq<char>>)
    requires
        0 <= i,
        all_style_free(row),
    ensures
        style_free(cells_html(i, row)),
        empty_or_neutral(cells_html(i, row)),
    decreases row.len(),
{
    if row.len() == 0 {
        lemma_no_eq(Seq::<char>::empty());
    } else {
        let init = row.drop_last();
        assert(all_style_free(init)) by {
            assert forall|k: int| 0 <= k < init.len() implies style_free(#[trigger] init[k]) by {
                assert(init[k] == row[k]);
            }
        }
        lemma_cells(i, init);
        assert(style_free(row[row.len() - 1]));
        lit_td();
        lit_td_close();
        lemma_cell_content(i, row.len() - 1, row.last());
        let c = cell_content_html(i, row.len() - 1, row.last());
        lemma_then_maybe(cells_html(i, init), "<td>"@);
        lemma_then(cells_html(i, init) + "<td>"@, c);
        lemma_then(cells_html(i, init) + "<td>"@ + c, "</td>"@);
    }
}

/// Every cell of a table is free of `style=`.
pub open spec fn table_style_free(rows: Seq<Seq<Seq<char>>>) -> bool {
    forall|i: int| 0 <= i < rows.len() ==> all_style_free(#[trigger] rows[i])
}

proof fn lemma_board_rows(rows: Seq<Seq<Seq<char>>>)
    requires
        table_style_free(rows),
    ensures
        style_free(board_rows_html(rows)),
        empty_or_neutral(board_rows_html(rows)),
    decreases rows.len(),
{
    if rows.len() == 0 {
        lemma_no_eq(Seq::<char>::empty());
    } else {
        let init = rows.drop_last();
        assert(table_style_free(init)) by {
            assert forall|k: int| 0 <= k < init.len() implies all_style_free(#[trigger] init[k]) by {
                assert(init[k] == rows[k]);
            }
        }
        lemma_board_rows(init);
        assert(all_style_free(rows[rows.len() - 1]));
        lit_tr();
        lit_tr_close();
        let cells = cells_html(rows.len() - 1, rows.last());
        lemma_cells(rows.len() - 1, rows.last());
        lemma_then_maybe(board_rows_html(init), "<tr>"@);
        let a = board_rows_html(init) + "<tr>"@;
        lemma_cat(a, cells);
        if cells.len() > 0 {
            lemma_then(a, cells);
        } else {
            assert(a + cells =~= a);
        }
        lemma_then(a + cells, "</tr>"@);
    }
}

proof fn lemma_header_cells(headers: Seq<Seq<char>>)
    requires
        all_style_free(headers),
    ensures
        style_free(header_cells_html(headers)),
        empty_or_neutral(header_cells_html(headers)),
    decreases headers.len(),
{
    if headers.len() == 0 {
        lemma_no_eq(Seq::<char>::empty());
    } else {
        let init = headers.drop_last();
        assert(all_style_free(init)) by {
            assert forall|k: int| 0 <= k < init.len() implies style_free(#[trigger] init[k]) by {
                assert(init[k] == headers[k]);
            }
        }
        lemma_header_cells(init);
        assert(style_free(headers[headers.len() - 1]));
        lit_th();
        lit_th_close();
        lit_key_color();
        lemma_fc(COLOR_KEY@, headers.last());
        let f = fc_html(COLOR_KEY@, headers.last());
        lemma_then_maybe(header_cells_html(init), "<th>"@);
        lemma_then(header_cells_html(init) + "<th>"@, f);
        lemma_then(header_cells_html(init) + "<th>"@ + f, "</th>"@);
    }
}

/// Appends a piece that may be empty to a neutral prefix, then a neutral piece.
proof fn lemma_maybe_between(a: Seq<char>, x: Seq<char>, b: Seq<char>)
    requires
        style_free(a) && neutral_ends(a),
        style_free(x) && empty_or_neutral(x),
        style_free(b) && neutral_ends(b),
    ensures
        style_free(a + x + b),
        neutral_ends(a + x + b),
{
    lemma_cat(a, x);
    if x.len() > 0 {
        lemma_then(a, x);
    } else {
        assert(a + x =~= a);
    }
    lemma_then(a + x, b);
}

proof fn lemma_leaderboard(title: Seq<char>, headers: Seq<Seq<char>>, rows: Seq<Seq<Seq<char>>>)
    requires
        style_free(title),
        all_style_free(headers),
        table_style_free(rows),
    ensures
        style_free(leaderboard_html(title, headers, rows)),
{
    lit_h3();
    lit_space();
    lit_board_mid();
    lit_tr_close();
    lit_card_end();
    lit_board_icon();
    lit_warning_color();
    lit_title_color();
    lemma_fc(COLOR_GOLD@, "◆"@);
    lemma_fc(COLOR_TITLE@, title);
    lemma_bold(fc_html(COLOR_TITLE@, title));
    lemma_header_cells(headers);
    lemma_board_rows(rows);
    let head = "<h3>"@ + fc_html(COLOR_GOLD@, "◆"@) + " "@ + bold_html(fc_html(COLOR_TITLE@, title))
        + "</h3><blockquote><table><tr>"@;
    lemma_chain("<h3>"@, fc_html(COLOR_GOLD@, "◆"@), " "@, bold_html(fc_html(COLOR_TITLE@, title)), "</h3><blockquote><table><tr>"@);
    lemma_maybe_between(head, header_cells_html(headers), "</tr>"@);
    lemma_maybe_between(head + header_cells_html(headers) + "</tr>"@, board_rows_html(rows), "</table></blockquote>"@);
}

proof fn lemma_status_parts(kind: Status)
    ensures
        style_free(status_icon(kind)),
        status_icon(kind).len() > 0,
        style_free(status_color(kind)),
{
    lit_ok();
    lit_fail();
    lit_warn();
    lit_note();
    lit_success_color();
    lit_error_color();
    lit_warning_color();
    lit_accent_color();
    reveal_strlit("✓");
    reveal_strlit("✕");
    reveal_strlit("⚠");
    reveal_strlit("ℹ");
}

proof fn lemma_status(kind: Status, message: Seq<char>)
    requires
        style_free(message),
    ensures
        style_free(status_html(kind, message)),
{
    lemma_status_parts(kind);
    lit_two_spaces();
    lit_bq();
    lit_bq_close();
    let icon = status_icon(kind);
    lemma_cat(icon, "  "@);
    lemma_after(icon + "  "@, message);
    let line = icon + "  "@ + message;
    lemma_fc(status_color(kind), line);
    lemma_bold(fc_html(status_color(kind), line));
    lemma_wrap("<blockquote>"@, bold_html(fc_html(status_color(kind), line)), "</blockquote>"@);
}

proof fn lemma_status_detail(kind: Status, title: Seq<char>, detail: Seq<char>)
    requires
        style_free(title),
        style_free(detail),
    ensures
        style_free(status_detail_html(kind, title, detail)),
{
    lemma_status_parts(kind);
    lit_space();
    lit_bq();
    lit_bq_close();
    lit_br();
    lit_key_color();
    let icon = status_icon(kind);
    lemma_cat(icon, " "@);
    lemma_after(icon + " "@, title);
    let line = icon + " "@ + title;
    lemma_fc(status_color(kind), line);
    lemma_bold(fc_html(status_color(kind), line));
    lemma_fc(COLOR_KEY@, detail);
    lemma_chain(
        "<blockquote>"@,
        bold_html(fc_html(status_color(kind), line)),
        "<br>"@,
        fc_html(COLOR_KEY@, detail),
        "</blockquote>"@,
    );
}

/// The templates add no `style=` of their own: when none of the texts put into
/// them holds `style=`, neither does any card, menu, list, leaderboard or
/// status message they make.
pub proof fn law_templates_add_no_style(
    title: Seq<char>,
    message: Seq<char>,
    detail: Seq<char>,
    items: Seq<(Seq<char>, Seq<char>)>,
    headers: Seq<Seq<char>>,
    rows: Seq<Seq<Seq<char>>>,
    kind: Status,
)
    requires
        style_free(title),
        style_free(message),
        style_free(detail),
        pairs_style_free(items),
        all_style_free(headers),
        table_style_free(rows),
    ensures
        style_free(info_card_html(title, items)),
        style_free(user_card_html(title, items)),
        style_free(help_menu_html(items)),
        style_free(subcommand_list_html(title, items)),
        style_free(leaderboard_html(title, headers, rows)),
        style_free(status_html(kind, message)),
        style_free(status_detail_html(kind, title, detail)),
{
    lemma_kv_rows(items);
    lemma_cmd_rows(items);
    lit_accent_color();
    lit_cmd_color();
    lit_info_icon();
    lit_user_icon();
    lit_help_icon();
    lit_list_icon();
    lit_help_title();
    lemma_card(COLOR_ACCENT@, "◈"@, title, kv_rows_html(items));
    lemma_card(COLOR_CMD@, "◉"@, title, kv_rows_html(items));
    lemma_card(COLOR_ACCENT@, "⌨"@, "命令帮助"@, cmd_rows_html(items));
    lemma_card(COLOR_ACCENT@, "≡"@, title, cmd_rows_html(items));
    lemma_leaderboard(title, headers, rows);
    lemma_status(kind, message);
    lemma_status_detail(kind, title, detail);
}

} // verus!
