//! The administration commands: `bot`, `leave` and `ping`.

use vstd::prelude::*;
use crate::command::permission::Permission;
use crate::command::registry::{CommandInfo, CommandInfoView};
use crate::command::permission::string_views;
use crate::text::{chars_of, decimal, decimal_string, join, join_strings, str_eq, string_from_chars, trim, trim_str};
use crate::ui::templates::{GlassTemplate, Status, info_card_html, pair_views, status_html};

verus! {

/// The reply to `ping`.
pub open spec fn pong_text() -> Seq<char> {
    "🏓 Pong!"@
}

/// The sub-commands of `bot`.
pub open spec fn bot_help_text() -> Seq<char> {
    "可用子命令:\n• info - 查看 Bot 信息\n• ping - 测试响应延迟\n• name <名称> - 修改 Bot 显示名称\n• avatar <url> - 修改 Bot 头像\n• join <room_id> - 加入指定房间\n• rooms - 列出已加入的房间\n• prefix <新前缀> - 修改命令前缀\n• leave - 离开当前房间"@
}

/// The permission a sub-command of `bot` requires: `name`, `avatar`, `join`,
/// `rooms` and `prefix` are for the bot owners, `leave` for room moderators,
/// the rest for anyone.
pub open spec fn bot_permission(sub: Option<Seq<char>>) -> Permission {
    match sub {
        Some(s) => if s == "name"@ || s == "avatar"@ || s == "join"@ || s == "rooms"@ || s == "prefix"@ {
            Permission::BotOwner
        } else if s == "leave"@ {
            Permission::RoomMod
        } else {
            Permission::Anyone
        },
        None => Permission::Anyone,
    }
}

/// The refusal of a sub-command that lacks its argument.
pub open spec fn bot_usage_text(sub: Seq<char>, placeholder: Seq<char>) -> Seq<char> {
    status_html(Status::Error, "用法: !bot "@ + sub + " "@ + placeholder)
}

/// What `bot` does with its sub-command `sub` and the argument `arg` after it.
pub open spec fn bot_action_matches(a: BotAction, sub: Option<Seq<char>>, arg: Seq<char>) -> bool {
    match sub {
        Some(s) => if s == "info"@ {
            a is Info
        } else if s == "ping"@ {
            a is Ping
        } else if s == "rooms"@ {
            a is Rooms
        } else if s == "leave"@ {
            a is Leave
        } else if s == "name"@ {
            if arg.len() == 0 {
                a matches BotAction::Usage(t) && t@ == bot_usage_text("name"@, "<名称>"@)
            } else {
                a matches BotAction::Name(n) && n@ == arg
            }
        } else if s == "avatar"@ {
            if arg.len() == 0 {
                a matches BotAction::Usage(t) && t@ == bot_usage_text("avatar"@, "<url>"@)
            } else {
                a matches BotAction::Avatar(u) && u@ == arg
            }
        } else if s == "join"@ {
            if arg.len() == 0 {
                a matches BotAction::Usage(t) && t@ == bot_usage_text("join"@, "<room_id>"@)
            } else {
                a matches BotAction::Join(r) && r@ == arg
            }
        } else if s == "prefix"@ {
            if arg.len() == 0 {
                a matches BotAction::Usage(t) && t@ == bot_usage_text("prefix"@, "<新前缀>"@)
            } else {
                a matches BotAction::Prefix(p) && p@ == arg
            }
        } else {
            a matches BotAction::Help(t) && t@ == bot_help_text()
        },
        None => a matches BotAction::Help(t) && t@ == bot_help_text(),
    }
}

/// The part of `s` before the first `c`; all of `s` when there is none.
pub open spec fn before_first(s: Seq<char>, c: char) -> Seq<char>
    decreases s.len(),
{
    if s.len() == 0 {
        s
    } else if s[0] == c {
        Seq::empty()
    } else {
        seq![s[0]] + before_first(s.skip(1), c)
    }
}

/// `c` is `d`, or the upper-case ASCII letter of the lower-case `d`.
pub open spec fn ascii_ci_char(c: char, d: char) -> bool {
    c == d || (65 <= (c as u32) <= 90 && (c as u32) + 32 == (d as u32))
}

/// `s` is `lower` up to the case of ASCII letters.
pub open spec fn ascii_ci_eq(s: Seq<char>, lower: Seq<char>) -> bool {
    s.len() == lower.len() && forall|i: int| 0 <= i < s.len() ==> ascii_ci_char(#[trigger] s[i], lower[i])
}

/// The media type of a `Content-Type` value: before any parameter, trimmed.
pub open spec fn media_type(content_type: Seq<char>) -> Seq<char> {
    trim(before_first(content_type, ';'))
}

/// The image kind a `Content-Type` value names, if it is one the bot takes as
/// its avatar.
pub open spec fn image_kind_spec(content_type: Seq<char>) -> Option<ImageKind> {
    let m = media_type(content_type);
    if ascii_ci_eq(m, "image/png"@) {
        Some(ImageKind::Png)
    } else if ascii_ci_eq(m, "image/jpeg"@) || ascii_ci_eq(m, "image/jpg"@) {
        Some(ImageKind::Jpeg)
    } else if ascii_ci_eq(m, "image/gif"@) {
        Some(ImageKind::Gif)
    } else if ascii_ci_eq(m, "image/webp"@) {
        Some(ImageKind::Webp)
    } else {
        None
    }
}

pub open spec fn image_mime_spec(k: ImageKind) -> Seq<char> {
    match k {
        ImageKind::Png => "image/png"@,
        ImageKind::Jpeg => "image/jpeg"@,
        ImageKind::Gif => "image/gif"@,
        ImageKind::Webp => "image/webp"@,
    }
}

/// The title of the room list.
pub open spec fn rooms_title(n: nat) -> Seq<char> {
    "已加入的房间 ("@ + decimal(n) + ")"@
}

/// The answer to `bot info`; an unknown id reads "未知".
pub open spec fn bot_info_text(user_id: Option<Seq<char>>, device_id: Option<Seq<char>>, rooms: nat) -> Seq<char> {
    "**Bot 信息**\n• 用户 ID: "@ + (match user_id { Some(u) => u, None => "未知"@ })
        + "\n• 设备 ID: "@ + (match device_id { Some(d) => d, None => "未知"@ })
        + "\n• 已加入房间: "@ + decimal(rooms) + " 个"@
}

/// The farewell before leaving a room.
pub open spec fn farewell_text(room_id: Seq<char>) -> Seq<char> {
    "再见！正在离开房间 "@ + room_id + " ..."@
}

/// What `bot` does with its sub-command.
pub enum BotAction {
    /// Show the bot's information.
    Info,
    /// Answer with a pong.
    Ping,
    /// Set the bot's display name.
    Name(String),
    /// Set the bot's avatar to the image at this URL.
    Avatar(String),
    /// Join the room of this id or alias.
    Join(String),
    /// List the rooms the bot has joined.
    Rooms,
    /// Set the command prefix.
    Prefix(String),
    /// Leave the current room.
    Leave,
    /// Send this refusal: the sub-command lacks its argument.
    Usage(String),
    /// List the sub-commands.
    Help(String),
}

/// A sub-command of `bot` and the permission it requires.
pub struct BotCommand {
    pub action: BotAction,
    pub permission: Permission,
}

/// The image formats the bot takes as its avatar.
#[derive(Debug, Clone, Copy, PartialEq, Eq, Structural)]
pub enum ImageKind {
    Png,
    Jpeg,
    Gif,
    Webp,
}

impl ImageKind {
    /// The MIME type of this format.
    pub fn mime(&self) -> (r: &'static str)
        ensures
            r@ == image_mime_spec(*self),
    {
        match self {
            ImageKind::Png => "image/png",
            ImageKind::Jpeg => "image/jpeg",
            ImageKind::Gif => "image/gif",
            ImageKind::Webp => "image/webp",
        }
    }
}

/// The `bot` command.
pub struct BotInfoHandler;

/// The `leave` command.
pub struct BotLeaveHandler;

/// The `ping` command.
pub struct BotPingHandler;

fn bot_help() -> (r: String)
    ensures
        r@ == bot_help_text(),
{
    "可用子命令:\n• info - 查看 Bot 信息\n• ping - 测试响应延迟\n• name <名称> - 修改 Bot 显示名称\n• avatar <url> - 修改 Bot 头像\n• join <room_id> - 加入指定房间\n• rooms - 列出已加入的房间\n• prefix <新前缀> - 修改命令前缀\n• leave - 离开当前房间".to_owned()
}

fn usage(sub: &str, placeholder: &str) -> (r: String)
    ensures
        r@ == bot_usage_text(sub@, placeholder@),
{
    let mut m = "用法: !bot ".to_owned();
    m.append(sub);
    m.append(" ");
    m.append(placeholder);
    GlassTemplate::status(Status::Error, m.as_str())
}

fn pong() -> (r: String)
    ensures
        r@ == pong_text(),
{
    "🏓 Pong!".to_owned()
}

impl BotInfoHandler {
    /// What the command declares: `bot`, open to anyone.
    pub fn command_info(&self) -> (c: CommandInfo)
        ensures
            c@ == (CommandInfoView {
                name: "bot"@,
                description: "Bot 管理命令"@,
                usage: "bot info - 查看 Bot 信息"@,
                permission: Permission::Anyone,
            }),
    {
        CommandInfo::new("bot", "Bot 管理命令", "bot info - 查看 Bot 信息", Permission::Anyone)
    }

    /// The action for the sub-command `sub` with the arguments `args` after
    /// it, and the permission it requires; an unknown sub-command shows the
    /// list of sub-commands, and one that lacks its argument shows its usage.
    pub fn route(&self, sub: Option<&str>, args: &[String]) -> (c: BotCommand)
        ensures
            c.permission == bot_permission(match sub { Some(s) => Some(s@), None => None }),
            bot_action_matches(
                c.action,
                match sub { Some(s) => Some(s@), None => None },
                join(string_views(args@), " "@),
            ),
    {
        proof {
            reveal_strlit("info");
            reveal_strlit("ping");
            reveal_strlit("name");
            reveal_strlit("avatar");
            reveal_strlit("join");
            reveal_strlit("rooms");
            reveal_strlit("prefix");
            reveal_strlit("leave");
            assert("info"@[0] != "ping"@[0]);
            assert("info"@[0] != "name"@[0]);
            assert("info"@[0] != "avatar"@[0]);
            assert("info"@[0] != "join"@[0]);
            assert("info"@[0] != "rooms"@[0]);
            assert("info"@[0] != "prefix"@[0]);
            assert("info"@[0] != "leave"@[0]);
            assert("ping"@[0] != "name"@[0]);
            assert("ping"@[0] != "avatar"@[0]);
            assert("ping"@[0] != "join"@[0]);
            assert("ping"@[0] != "rooms"@[0]);
            assert("ping"@[1] != "prefix"@[1]);
            assert("ping"@[0] != "leave"@[0]);
            assert("name"@[0] != "avatar"@[0]);
            assert("name"@[0] != "join"@[0]);
            assert("name"@[0] != "rooms"@[0]);
            assert("name"@[0] != "prefix"@[0]);
            assert("name"@[0] != "leave"@[0]);
            assert("avatar"@[0] != "join"@[0]);
            assert("avatar"@[0] != "rooms"@[0]);
            assert("avatar"@[0] != "prefix"@[0]);
            assert("avatar"@[0] != "leave"@[0]);
            assert("join"@[0] != "rooms"@[0]);
            assert("join"@[0] != "prefix"@[0]);
            assert("join"@[0] != "leave"@[0]);
            assert("rooms"@[0] != "prefix"@[0]);
            assert("rooms"@[0] != "leave"@[0]);
            assert("prefix"@[0] != "leave"@[0]);
        }
        let s = match sub {
            Some(s) => s,
            None => {
                return BotCommand { action: BotAction::Help(bot_help()), permission: Permission::Anyone };
            },
        };
        let arg = join_strings(args, " ");
        let argument_missing = arg.as_str().is_empty();
        if str_eq(s, "info") {
            BotCommand { action: BotAction::Info, permission: Permission::Anyone }
        } else if str_eq(s, "ping") {
            BotCommand { action: BotAction::Ping, permission: Permission::Anyone }
        } else if str_eq(s, "rooms") {
            BotCommand { action: BotAction::Rooms, permission: Permission::BotOwner }
        } else if str_eq(s, "leave") {
            BotCommand { action: BotAction::Leave, permission: Permission::RoomMod }
        } else if str_eq(s, "name") {
            let action = if argument_missing { BotAction::Usage(usage("name", "<名称>")) } else { BotAction::Name(arg) };
            BotCommand { action, permission: Permission::BotOwner }
        } else if str_eq(s, "avatar") {
            let action = if argument_missing { BotAction::Usage(usage("avatar", "<url>")) } else { BotAction::Avatar(arg) };
            BotCommand { action, permission: Permission::BotOwner }
        } else if str_eq(s, "join") {
            let action = if argument_missing { BotAction::Usage(usage("join", "<room_id>")) } else { BotAction::Join(arg) };
            BotCommand { action, permission: Permission::BotOwner }
        } else if str_eq(s, "prefix") {
            let action = if argument_missing { BotAction::Usage(usage("prefix", "<新前缀>")) } else { BotAction::Prefix(arg) };
            BotCommand { action, permission: Permission::BotOwner }
        } else {
            BotCommand { action: BotAction::Help(bot_help()), permission: Permission::Anyone }
        }
    }

    /// The answer to `bot info`.
    pub fn info_text(&self, user_id: Option<&str>, device_id: Option<&str>, rooms: usize) -> (r: String)
        ensures
            r@ == bot_info_text(
                match user_id { Some(u) => Some(u@), None => None },
                match device_id { Some(d) => Some(d@), None => None },
                rooms as nat,
            ),
    {
        let mut r = "**Bot 信息**\n• 用户 ID: ".to_owned();
        match user_id {
            Some(u) => r.append(u),
            None => r.append("未知"),
        }
        r.append("\n• 设备 ID: ");
        match device_id {
            Some(d) => r.append(d),
            None => r.append("未知"),
        }
        r.append("\n• 已加入房间: ");
        r.append(decimal_string(rooms).as_str());
        r.append(" 个");
        r
    }

    /// The confirmation of `bot name`.
    pub fn name_updated(&self, name: &str) -> (r: String)
        ensures
            r@ == status_html(Status::Success, "Bot 名称已更新为: "@ + name@),
    {
        let mut m = "Bot 名称已更新为: ".to_owned();
        m.append(name);
        GlassTemplate::status(Status::Success, m.as_str())
    }

    /// The confirmation of `bot avatar`.
    pub fn avatar_updated(&self) -> (r: String)
        ensures
            r@ == status_html(Status::Success, "Bot 头像已更新"@),
    {
        GlassTemplate::status(Status::Success, "Bot 头像已更新")
    }

    /// The refusal of an avatar that is not an image of a format the bot takes.
    pub fn avatar_unsupported(&self) -> (r: String)
        ensures
            r@ == status_html(Status::Error, "仅支持 PNG/JPEG/GIF/WebP 图片"@),
    {
        GlassTemplate::status(Status::Error, "仅支持 PNG/JPEG/GIF/WebP 图片")
    }

    /// The confirmation of `bot join`.
    pub fn joined(&self, room: &str) -> (r: String)
        ensures
            r@ == status_html(Status::Success, "已加入房间: "@ + room@),
    {
        let mut m = "已加入房间: ".to_owned();
        m.append(room);
        GlassTemplate::status(Status::Success, m.as_str())
    }

    /// The answer to `bot rooms`: each joined room's id and name, or a warning
    /// when there is none.
    pub fn rooms_card(&self, rooms: &[(&str, &str)]) -> (r: String)
        ensures
            rooms@.len() == 0 ==> r@ == status_html(Status::Warning, "尚未加入任何房间"@),
            rooms@.len() > 0 ==> r@ == info_card_html(rooms_title(rooms@.len() as nat), pair_views(rooms@)),
    {
        if rooms.len() == 0 {
            return GlassTemplate::status(Status::Warning, "尚未加入任何房间");
        }
        let mut title = "已加入的房间 (".to_owned();
        title.append(decimal_string(rooms.len()).as_str());
        title.append(")");
        GlassTemplate::info_card(title.as_str(), rooms)
    }

    /// The confirmation of `bot prefix`.
    pub fn prefix_updated(&self, prefix: &str) -> (r: String)
        ensures
            r@ == status_html(Status::Success, "命令前缀已更新为: "@ + prefix@),
    {
        let mut m = "命令前缀已更新为: ".to_owned();
        m.append(prefix);
        GlassTemplate::status(Status::Success, m.as_str())
    }

    /// The report of a failed homeserver request: what failed, and why.
    pub fn failure(&self, what: &str, err: &str) -> (r: String)
        ensures
            r@ == status_html(Status::Error, what@ + ": "@ + err@),
    {
        let mut m = what.to_owned();
        m.append(": ");
        m.append(err);
        GlassTemplate::status(Status::Error, m.as_str())
    }

    /// The answer to `bot ping`.
    pub fn ping_text(&self) -> (r: String)
        ensures
            r@ == pong_text(),
    {
        pong()
    }
}

impl BotLeaveHandler {
    /// What the command declares: `leave`, for room moderators.
    pub fn command_info(&self) -> (c: CommandInfo)
        ensures
            c@ == (CommandInfoView {
                name: "leave"@,
                description: "让 Bot 离开当前房间"@,
                usage: "leave"@,
                permission: Permission::RoomMod,
            }),
    {
        CommandInfo::new("leave", "让 Bot 离开当前房间", "leave", Permission::RoomMod)
    }

    /// The farewell sent before leaving `room_id`.
    pub fn farewell(&self, room_id: &str) -> (r: String)
        ensures
            r@ == farewell_text(room_id@),
    {
        let mut r = "再见！正在离开房间 ".to_owned();
        r.append(room_id);
        r.append(" ...");
        r
    }
}

impl BotPingHandler {
    /// What the command declares: `ping`, open to anyone.
    pub fn command_info(&self) -> (c: CommandInfo)
        ensures
            c@ == (CommandInfoView {
                name: "ping"@,
                description: "测试 Bot 响应"@,
                usage: "ping"@,
                permission: Permission::Anyone,
            }),
    {
        CommandInfo::new("ping", "测试 Bot 响应", "ping", Permission::Anyone)
    }

    /// The answer to `ping`.
    pub fn reply(&self) -> (r: String)
        ensures
            r@ == pong_text(),
    {
        pong()
    }
}

/// `before_first(s, c)` is the part of `s` before index `i`, when `c` does not
/// occur before `i` and `i` is the end of `s` or holds `c`.
proof fn lemma_before_first(s: Seq<char>, c: char, i: int)
    requires
        0 <= i <= s.len(),
        forall|j: int| 0 <= j < i ==> s[j] != c,
        i == s.len() || s[i] == c,
    ensures
        before_first(s, c) == s.take(i),
    decreases i,
{
    if i == 0 {
        if s.len() > 0 {
            assert(s[0] == c);
        }
        assert(s.take(0) =~= Seq::<char>::empty());
    } else {
        lemma_before_first(s.skip(1), c, i - 1);
        assert(s.take(i) =~= seq![s[0]] + s.skip(1).take(i - 1));
    }
}

/// `s` is `lower` up to the case of ASCII letters.
fn ascii_ci_equals(s: &Vec<char>, lower: &str) -> (b: bool)
    ensures
        b == ascii_ci_eq(s@, lower@),
{
    let l = chars_of(lower);
    if s.len() != l.len() {
        return false;
    }
    let mut i: usize = 0;
    while i < s.len()
        invariant
            l@ == lower@,
            s@.len() == l@.len(),
            i <= s@.len(),
            forall|j: int| 0 <= j < i ==> ascii_ci_char(#[trigger] s@[j], lower@[j]),
        decreases s@.len() - i,
    {
        let c = s[i];
        let d = l[i];
        let n = c as u32;
        if !(c == d || (65 <= n && n <= 90 && n + 32 == d as u32)) {
            assert(!ascii_ci_char(s@[i as int], lower@[i as int]));
            return false;
        }
        i = i + 1;
    }
    true
}

/// The image kind a `Content-Type` value names, when the bot takes it as its
/// avatar: PNG, JPEG, GIF or WebP, whatever the case of the letters and the
/// parameters after the media type.
pub fn image_kind(content_type: &str) -> (r: Option<ImageKind>)
    ensures
        r == image_kind_spec(content_type@),
{
    let v = chars_of(content_type);
    let mut i: usize = 0;
    while i < v.len() && v[i] != ';'
        invariant
            v@ == content_type@,
            i <= v@.len(),
            forall|j: int| 0 <= j < i ==> v@[j] != ';',
        decreases v@.len() - i,
    {
        i = i + 1;
    }
    proof {
        lemma_before_first(content_type@, ';', i as int);
        assert(content_type@.subrange(0, i as int) =~= content_type@.take(i as int));
    }
    let head = string_from_chars(&v, 0, i);
    let m = chars_of(trim_str(head.as_str()).as_str());
    if ascii_ci_equals(&m, "image/png") {
        Some(ImageKind::Png)
    } else if ascii_ci_equals(&m, "image/jpeg") || ascii_ci_equals(&m, "image/jpg") {
        Some(ImageKind::Jpeg)
    } else if ascii_ci_equals(&m, "image/gif") {
        Some(ImageKind::Gif)
    } else if ascii_ci_equals(&m, "image/webp") {
        Some(ImageKind::Webp)
    } else {
        None
    }
}

} // verus!
