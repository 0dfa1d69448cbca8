//! HTML message templates that Element renders without `style=` attributes:
//! `<h3>` titles, `<blockquote>` cards, `<table>` grids, `<code>` commands and
//! `<font color>` text.

use vstd::prelude::*;

verus! {

pub const COLOR_TITLE: &'static str = "#e8eeff";
pub const COLOR_ACCENT: &'static str = "#6ea8ff";
pub const COLOR_KEY: &'static str = "#6a7fa8";
pub const COLOR_VALUE: &'static str = "#c8d4f0";
pub const COLOR_DIM: &'static str = "#4a5a78";
pub const COLOR_CMD: &'static str = "#7ab4ff";
pub const COLOR_SUCCESS: &'static str = "#48bb78";
pub const COLOR_ERROR: &'static str = "#f06070";
pub const COLOR_WARNING: &'static str = "#f0c060";
pub const COLOR_GOLD: &'static str = "#f0c060";

/// `s` in the given font colour.
pub open spec fn fc_html(color: Seq<char>, s: Seq<char>) -> Seq<char> {
    "<font color=\""@ + color + "\">"@ + s + "</font>"@
}

/// `s` in bold.
pub open spec fn bold_html(s: Seq<char>) -> Seq<char> {
    "<b>"@ + s + "</b>"@
}

/// `s` as code.
pub open spec fn code_html(s: Seq<char>) -> Seq<char> {
    "<code>"@ + s + "</code>"@
}

/// A table row of a key and its bold value.
pub open spec fn kv_row_html(k: Seq<char>, v: Seq<char>) -> Seq<char> {
    "<tr><td>"@ + fc_html(COLOR_KEY@, k) + "</td><td>"@ + bold_html(fc_html(COLOR_VALUE@, v)) + "</td></tr>"@
}

/// A table row of a command and its dimmed description.
pub open spec fn cmd_row_html(name: Seq<char>, desc: Seq<char>) -> Seq<char> {
    "<tr><td>"@ + code_html(name) + "</td><td>"@ + fc_html(COLOR_DIM@, desc) + "</td></tr>"@
}

/// The character sequences of a list of string pairs.
pub open spec fn pair_views(items: Seq<(&str, &str)>) -> Seq<(Seq<char>, Seq<char>)> {
    items.map_values(|p: (&str, &str)| (p.0@, p.1@))
}

/// The character sequences of a list of strings.
pub open spec fn str_views(items: Seq<&str>) -> Seq<Seq<char>> {
    items.map_values(|x: &str| x@)
}

/// The character sequences of a table of strings.
pub open spec fn table_views(rows: Seq<Vec<&str>>) -> Seq<Seq<Seq<char>>> {
    rows.map_values(|r: Vec<&str>| str_views(r@))
}

/// The key/value rows of `items`, in order.
pub open spec fn kv_rows_html(items: Seq<(Seq<char>, Seq<char>)>) -> Seq<char>
    decreases items.len(),
{
    if items.len() == 0 {
        Seq::empty()
    } else {
        kv_rows_html(items.drop_last()) + kv_row_html(items.last().0, items.last().1)
    }
}

/// The command rows of `items`, in order.
pub open spec fn cmd_rows_html(items: Seq<(Seq<char>, Seq<char>)>) -> Seq<char>
    decreases items.len(),
{
    if items.len() == 0 {
        Seq::empty()
    } else {
        cmd_rows_html(items.drop_last()) + cmd_row_html(items.last().0, items.last().1)
    }
}

/// A card: a large title with a coloured icon, then a quoted table of `rows`.
pub open spec fn card_html(icon_color: Seq<char>, icon: Seq<char>, title: Seq<char>, rows: Seq<char>) -> Seq<char> {
    "<h3>"@ + fc_html(icon_color, icon) + " "@ + bold_html(fc_html(COLOR_TITLE@, title))
        + "</h3><blockquote><table>"@ + rows + "</table></blockquote>"@
}

pub open spec fn info_card_html(title: Seq<char>, items: Seq<(Seq<char>, Seq<char>)>) -> Seq<char> {
    card_html(COLOR_ACCENT@, "◈"@, title, kv_rows_html(items))
}

pub open spec fn user_card_html(title: Seq<char>, items: Seq<(Seq<char>, Seq<char>)>) -> Seq<char> {
    card_html(COLOR_CMD@, "◉"@, title, kv_rows_html(items))
}

pub open spec fn help_menu_html(commands: Seq<(Seq<char>, Seq<char>)>) -> Seq<char> {
    card_html(COLOR_ACCENT@, "⌨"@, "命令帮助"@, cmd_rows_html(commands))
}

pub open spec fn subcommand_list_html(title: Seq<char>, items: Seq<(Seq<char>, Seq<char>)>) -> Seq<char> {
    card_html(COLOR_ACCENT@, "≡"@, title, cmd_rows_html(items))
}

/// Everything of a card after its icon: the title, then the quoted table of
/// `rows`.
pub open spec fn card_after_icon(title: Seq<char>, rows: Seq<char>) -> Seq<char> {
    " "@ + bold_html(fc_html(COLOR_TITLE@, title)) + "</h3><blockquote><table>"@ + rows + "</table></blockquote>"@
}

/// A user card is an info card with another icon in another colour: the same
/// title and the same key/value rows follow it.
pub proof fn law_user_card_is_info_card_with_its_icon(title: Seq<char>, items: Seq<(Seq<char>, Seq<char>)>)
    ensures
        info_card_html(title, items) == "<h3>"@ + fc_html(COLOR_ACCENT@, "◈"@) + card_after_icon(title, kv_rows_html(items)),
        user_card_html(title, items) == "<h3>"@ + fc_html(COLOR_CMD@, "◉"@) + card_after_icon(title, kv_rows_html(items)),
{
    let rows = kv_rows_html(items);
    assert(info_card_html(title, items) =~= "<h3>"@ + fc_html(COLOR_ACCENT@, "◈"@) + card_after_icon(title, rows));
    assert(user_card_html(title, items) =~= "<h3>"@ + fc_html(COLOR_CMD@, "◉"@) + card_after_icon(title, rows));
}

/// The help menu is the sub-command list titled "命令帮助" with another icon:
/// the same title and the same command rows follow it.
pub proof fn law_help_menu_is_subcommand_list_with_its_icon(commands: Seq<(Seq<char>, Seq<char>)>)
    ensures
        help_menu_html(commands) == "<h3>"@ + fc_html(COLOR_ACCENT@, "⌨"@) + card_after_icon("命令帮助"@, cmd_rows_html(commands)),
        subcommand_list_html("命令帮助"@, commands)
            == "<h3>"@ + fc_html(COLOR_ACCENT@, "≡"@) + card_after_icon("命令帮助"@, cmd_rows_html(commands)),
{
    let rows = cmd_rows_html(commands);
    assert(help_menu_html(commands) =~= "<h3>"@ + fc_html(COLOR_ACCENT@, "⌨"@) + card_after_icon("命令帮助"@, rows));
    assert(subcommand_list_html("命令帮助"@, commands)
        =~= "<h3>"@ + fc_html(COLOR_ACCENT@, "≡"@) + card_after_icon("命令帮助"@, rows));
}

/// The medal of the first three places.
pub open spec fn medal(i: int) -> Seq<char> {
    if i == 0 { "🥇"@ } else if i == 1 { "🥈"@ } else if i == 2 { "🥉"@ } else { Seq::empty() }
}

/// The content of cell `ci` of leaderboard row `i`: the rank column carries a
/// medal for the first three places, and the first row's values are gold.
pub open spec fn cell_content_html(i: int, ci: int, cell: Seq<char>) -> Seq<char> {
    if ci == 0 {
        if i < 3 {
            medal(i) + " "@ + fc_html(COLOR_VALUE@, cell)
        } else {
            fc_html(COLOR_KEY@, cell)
        }
    } else if i == 0 {
        bold_html(fc_html(COLOR_GOLD@, cell))
    } else {
        fc_html(COLOR_VALUE@, cell)
    }
}

/// The cells of row `i`.
pub open spec fn cells_html(i: int, row: Seq<Seq<char>>) -> Seq<char>
    decreases row.len(),
{
    if row.len() == 0 {
        Seq::empty()
    } else {
        cells_html(i, row.drop_last()) + "<td>"@ + cell_content_html(i, row.len() - 1, row.last()) + "</td>"@
    }
}

/// The body rows of a leaderboard.
pub open spec fn board_rows_html(rows: Seq<Seq<Seq<char>>>) -> Seq<char>
    decreases rows.len(),
{
    if rows.len() == 0 {
        Seq::empty()
    } else {
        board_rows_html(rows.drop_last()) + "<tr>"@ + cells_html(rows.len() - 1, rows.last()) + "</tr>"@
    }
}

/// The header cells of a leaderboard.
pub open spec fn header_cells_html(headers: Seq<Seq<char>>) -> Seq<char>
    decreases headers.len(),
{
    if headers.len() == 0 {
        Seq::empty()
    } else {
        header_cells_html(headers.drop_last()) + "<th>"@ + fc_html(COLOR_KEY@, headers.last()) + "</th>"@
    }
}

pub open spec fn leaderboard_html(title: Seq<char>, headers: Seq<Seq<char>>, rows: Seq<Seq<Seq<char>>>) -> Seq<char> {
    "<h3>"@ + fc_html(COLOR_GOLD@, "◆"@) + " "@ + bold_html(fc_html(COLOR_TITLE@, title))
        + "</h3><blockquote><table><tr>"@ + header_cells_html(headers) + "</tr>"@
        + board_rows_html(rows) + "</table></blockquote>"@
}

/// The kind of a status message.
#[derive(Debug, Clone, Copy, PartialEq, Eq, Structural)]
pub enum Status {
    Success,
    Error,
    Warning,
    Info,
}

pub open spec fn status_icon(kind: Status) -> Seq<char> {
    match kind {
        Status::Success => "✓"@,
        Status::Error => "✕"@,
        Status::Warning => "⚠"@,
        Status::Info => "ℹ"@,
    }
}

pub open spec fn status_color(kind: Status) -> Seq<char> {
    match kind {
        Status::Success => COLOR_SUCCESS@,
        Status::Error => COLOR_ERROR@,
        Status::Warning => COLOR_WARNING@,
        Status::Info => COLOR_ACCENT@,
    }
}

pub open spec fn status_html(kind: Status, message: Seq<char>) -> Seq<char> {
    "<blockquote>"@ + bold_html(fc_html(status_color(kind), status_icon(kind) + "  "@ + message)) + "</blockquote>"@
}

pub open spec fn status_detail_html(kind: Status, title: Seq<char>, detail: Seq<char>) -> Seq<char> {
    "<blockquote>"@ + bold_html(fc_html(status_color(kind), status_icon(kind) + " "@ + title)) + "<br>"@
        + fc_html(COLOR_KEY@, detail) + "</blockquote>"@
}

fn fc(color: &str, s: &str) -> (r: String)
    ensures
        r@ == fc_html(color@, s@),
{
    let mut r = "<font color=\"".to_owned();
    r.append(color);
    r.append("\">");
    r.append(s);
    r.append("</font>");
    r
}

fn bold(s: &str) -> (r: String)
    ensures
        r@ == bold_html(s@),
{
    let mut r = "<b>".to_owned();
    r.append(s);
    r.append("</b>");
    r
}

fn code(s: &str) -> (r: String)
    ensures
        r@ == code_html(s@),
{
    let mut r = "<code>".to_owned();
    r.append(s);
    r.append("</code>");
    r
}

fn kv_rows(items: &[(&str, &str)]) -> (r: String)
    ensures
        r@ == kv_rows_html(pair_views(items@)),
{
    let mut r = String::new();
    let mut i: usize = 0;
    while i < items.len()
        invariant
            i <= items@.len(),
            r@ == kv_rows_html(pair_views(items@).take(i as int)),
        decreases items@.len() - i,
    {
        let (k, v) = items[i];
        r.append("<tr><td>");
        r.append(fc(COLOR_KEY, k).as_str());
        r.append("</td><td>");
        r.append(bold(fc(COLOR_VALUE, v).as_str()).as_str());
        r.append("</td></tr>");
        assert(pair_views(items@).take(i + 1).drop_last() =~= pair_views(items@).take(i as int));
        i = i + 1;
    }
    assert(pair_views(items@).take(i as int) =~= pair_views(items@));
    r
}

fn cmd_rows(items: &[(&str, &str)]) -> (r: String)
    ensures
        r@ == cmd_rows_html(pair_views(items@)),
{
    let mut r = String::new();
    let mut i: usize = 0;
    while i < items.len()
        invariant
            i <= items@.len(),
            r@ == cmd_rows_html(pair_views(items@).take(i as int)),
        decreases items@.len() - i,
    {
        let (name, desc) = items[i];
        r.append("<tr><td>");
        r.append(code(name).as_str());
        r.append("</td><td>");
        r.append(fc(COLOR_DIM, desc).as_str());
        r.append("</td></tr>");
        assert(pair_views(items@).take(i + 1).drop_last() =~= pair_views(items@).take(i as int));
        i = i + 1;
    }
    assert(pair_views(items@).take(i as int) =~= pair_views(items@));
    r
}

fn card(icon_color: &str, icon: &str, title: &str, rows: &str) -> (r: String)
    ensures
        r@ == card_html(icon_color@, icon@, title@, rows@),
{
    let mut r = "<h3>".to_owned();
    r.append(fc(icon_color, icon).as_str());
    r.append(" ");
    r.append(bold(fc(COLOR_TITLE, title).as_str()).as_str());
    r.append("</h3><blockquote><table>");
    r.append(rows);
    r.append("</table></blockquote>");
    r
}

fn medal_of(i: usize) -> (m: &'static str)
    ensures
        m@ == medal(i as int),
{
    if i == 0 {
        "🥇"
    } else if i == 1 {
        "🥈"
    } else if i == 2 {
        "🥉"
    } else {
        proof { reveal_strlit(""); }
        ""
    }
}

fn cell_content(i: usize, ci: usize, cell: &str) -> (r: String)
    ensures
        r@ == cell_content_html(i as int, ci as int, cell@),
{
    if ci == 0 {
        if i < 3 {
            let mut r = medal_of(i).to_owned();
            r.append(" ");
            r.append(fc(COLOR_VALUE, cell).as_str());
            r
        } else {
            fc(COLOR_KEY, cell)
        }
    } else if i == 0 {
        bold(fc(COLOR_GOLD, cell).as_str())
    } else {
        fc(COLOR_VALUE, cell)
    }
}

fn status_icon_of(kind: Status) -> (r: &'static str)
    ensures
        r@ == status_icon(kind),
{
    match kind {
        Status::Success => "✓",
        Status::Error => "✕",
        Status::Warning => "⚠",
        Status::Info => "ℹ",
    }
}

fn status_color_of(kind: Status) -> (r: &'static str)
    ensures
        r@ == status_color(kind),
{
    match kind {
        Status::Success => COLOR_SUCCESS,
        Status::Error => COLOR_ERROR,
        Status::Warning => COLOR_WARNING,
        Status::Info => COLOR_ACCENT,
    }
}

/// The message templates.
pub struct GlassTemplate;

impl GlassTemplate {
    /// An information card: a title and a table of keys with bold values.
    pub fn info_card(title: &str, items: &[(&str, &str)]) -> (r: String)
        ensures
            r@ == info_card_html(title@, pair_views(items@)),
    {
        card(COLOR_ACCENT, "◈", title, kv_rows(items).as_str())
    }

    /// A user card: like an information card, with another icon.
    pub fn user_card(title: &str, items: &[(&str, &str)]) -> (r: String)
        ensures
            r@ == user_card_html(title@, pair_views(items@)),
    {
        card(COLOR_CMD, "◉", title, kv_rows(items).as_str())
    }

    /// The command help: a table of commands and their descriptions.
    pub fn help_menu(commands: &[(&str, &str)]) -> (r: String)
        ensures
            r@ == help_menu_html(pair_views(commands@)),
    {
        card(COLOR_ACCENT, "⌨", "命令帮助", cmd_rows(commands).as_str())
    }

    /// A titled list of sub-commands and their descriptions.
    pub fn subcommand_list(title: &str, items: &[(&str, &str)]) -> (r: String)
        ensures
            r@ == subcommand_list_html(title@, pair_views(items@)),
    {
        card(COLOR_ACCENT, "≡", title, cmd_rows(items).as_str())
    }

    /// A ranking table: medals for the first three ranks, gold values in the
    /// first row.
    pub fn leaderboard(title: &str, headers: &[&str], rows: &[Vec<&str>]) -> (r: String)
        ensures
            r@ == leaderboard_html(title@, str_views(headers@), table_views(rows@)),
    {
        let mut th = String::new();
        let mut h: usize = 0;
        while h < headers.len()
            invariant
                h <= headers@.len(),
                th@ == header_cells_html(str_views(headers@).take(h as int)),
            decreases headers@.len() - h,
        {
            th.append("<th>");
            th.append(fc(COLOR_KEY, headers[h]).as_str());
            th.append("</th>");
            assert(str_views(headers@).take(h + 1).drop_last() =~= str_views(headers@).take(h as int));
            h = h + 1;
        }
        assert(str_views(headers@).take(h as int) =~= str_views(headers@));
        let mut tr = String::new();
        let mut i: usize = 0;
        while i < rows.len()
            invariant
                i <= rows@.len(),
                tr@ == board_rows_html(table_views(rows@).take(i as int)),
            decreases rows@.len() - i,
        {
            let row = &rows[i];
            let mut cells = String::new();
            let mut ci: usize = 0;
            while ci < row.len()
                invariant
                    ci <= row@.len(),
                    i < rows@.len(),
                    *row == rows@[i as int],
                    cells@ == cells_html(i as int, str_views(row@).take(ci as int)),
                decreases row@.len() - ci,
            {
                cells.append("<td>");
                cells.append(cell_content(i, ci, row[ci]).as_str());
                cells.append("</td>");
                assert(str_views(row@).take(ci + 1).drop_last() =~= str_views(row@).take(ci as int));
                ci = ci + 1;
            }
            assert(str_views(row@).take(ci as int) =~= str_views(row@));
            tr.append("<tr>");
            tr.append(cells.as_str());
            tr.append("</tr>");
            assert(table_views(rows@).take(i + 1).drop_last() =~= table_views(rows@).take(i as int));
            assert(table_views(rows@)[i as int] == str_views(row@));
            i = i + 1;
        }
        assert(table_views(rows@).take(i as int) =~= table_views(rows@));
        let mut r = "<h3>".to_owned();
        r.append(fc(COLOR_GOLD, "◆").as_str());
        r.append(" ");
        r.append(bold(fc(COLOR_TITLE, title).as_str()).as_str());
        r.append("</h3><blockquote><table><tr>");
        r.append(th.as_str());
        r.append("</tr>");
        r.append(tr.as_str());
        r.append("</table></blockquote>");
        r
    }

    /// A one-line status message in the colour of its kind.
    pub fn status(kind: Status, message: &str) -> (r: String)
        ensures
            r@ == status_html(kind, message@),
    {
        let mut line = status_icon_of(kind).to_owned();
        line.append("  ");
        line.append(message);
        let mut r = "<blockquote>".to_owned();
        r.append(bold(fc(status_color_of(kind), line.as_str()).as_str()).as_str());
        r.append("</blockquote>");
        r
    }

    /// A status message with a title line and a detail line.
    pub fn status_detail(kind: Status, title: &str, detail: &str) -> (r: String)
        ensures
            r@ == status_detail_html(kind, title@, detail@),
    {
        let mut line = status_icon_of(kind).to_owned();
        line.append(" ");
        line.append(title);
        let mut r = "<blockquote>".to_owned();
        r.append(bold(fc(status_color_of(kind), line.as_str()).as_str()).as_str());
        r.append("<br>");
        r.append(fc(COLOR_KEY, detail).as_str());
        r.append("</blockquote>");
        r
    }
}

pub fn info_card(title: &str, items: &[(&str, &str)]) -> (r: String)
    ensures
        r@ == info_card_html(title@, pair_views(items@)),
{
    GlassTemplate::info_card(title, items)
}

pub fn user_card(title: &str, items: &[(&str, &str)]) -> (r: String)
    ensures
        r@ == user_card_html(title@, pair_views(items@)),
{
    GlassTemplate::user_card(title, items)
}

pub fn help_menu(commands: &[(&str, &str)]) -> (r: String)
    ensures
        r@ == help_menu_html(pair_views(commands@)),
{
    GlassTemplate::help_menu(commands)
}

pub fn subcommand_list(title: &str, items: &[(&str, &str)]) -> (r: String)
    ensures
        r@ == subcommand_list_html(title@, pair_views(items@)),
{
    GlassTemplate::subcommand_list(title, items)
}

pub fn leaderboard(title: &str, headers: &[&str], rows: &[Vec<&str>]) -> (r: String)
    ensures
        r@ == leaderboard_html(title@, str_views(headers@), table_views(rows@)),
{
    GlassTemplate::leaderboard(title, headers, rows)
}

pub fn success(msg: &str) -> (r: String)
    ensures
        r@ == status_html(Status::Success, msg@),
{
    GlassTemplate::status(Status::Success, msg)
}

pub fn error(msg: &str) -> (r: String)
    ensures
        r@ == status_html(Status::Error, msg@),
{
    GlassTemplate::status(Status::Error, msg)
}

pub fn warning(msg: &str) -> (r: String)
    ensures
        r@ == status_html(Status::Warning, msg@),
{
    GlassTemplate::status(Status::Warning, msg)
}

pub fn info(msg: &str) -> (r: String)
    ensures
        r@ == status_html(Status::Info, msg@),
{
    GlassTemplate::status(Status::Info, msg)
}

pub fn success_detail(title: &str, detail: &str) -> (r: String)
    ensures
        r@ == status_detail_html(Status::Success, title@, detail@),
{
    GlassTemplate::status_detail(Status::Success, title, detail)
}

pub fn error_detail(title: &str, detail: &str) -> (r: String)
    ensures
        r@ == status_detail_html(Status::Error, title@, detail@),
{
    GlassTemplate::status_detail(Status::Error, title, detail)
}

} // verus!
