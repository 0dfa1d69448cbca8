//! The `persona` command: room personas that set the model's system prompt.
//! Reading and writing the personas is the store's business; this module
//! decides what each sub-command checks and answers.

use vstd::prelude::*;
use vstd::string::StringSliceAdditionalSpecFns;
use vstd::utf8::{decode_utf8, encode_utf8, encode_utf8_decode_utf8, is_char_boundary};
use crate::command::permission::{Permission, string_views};
use crate::command::registry::{CommandInfo, CommandInfoView};
use crate::text::{join, join_strings, str_eq, chars_of, push_char, occurs_at, string_from_chars};
use crate::ui::templates::{
    GlassTemplate, Status, info_card_html, status_html,
};

verus! {

/// A persona: a name and a system prompt for the model.
pub struct Persona {
    pub id: String,
    pub name: String,
    pub system_prompt: String,
    pub avatar_emoji: Option<String>,
    pub is_builtin: bool,
    pub created_by: Option<String>,
}

/// The mathematical value of a `Persona`.
pub struct PersonaView {
    pub id: Seq<char>,
    pub name: Seq<char>,
    pub system_prompt: Seq<char>,
    pub avatar_emoji: Option<Seq<char>>,
    pub is_builtin: bool,
    pub created_by: Option<Seq<char>>,
}

pub open spec fn opt_view(o: Option<String>) -> Option<Seq<char>> {
    match o {
        Some(s) => Some(s@),
        None => None,
    }
}

impl View for Persona {
    type V = PersonaView;

    open spec fn view(&self) -> PersonaView {
        PersonaView {
            id: self.id@,
            name: self.name@,
            system_prompt: self.system_prompt@,
            avatar_emoji: opt_view(self.avatar_emoji),
            is_builtin: self.is_builtin,
            created_by: opt_view(self.created_by),
        }
    }
}

/// The emoji of a persona, or nothing.
pub open spec fn emoji_of(p: PersonaView) -> Seq<char> {
    match p.avatar_emoji {
        Some(e) => e,
        None => Seq::empty(),
    }
}

/// How a persona is listed: emoji, name, and a mark for the built-in ones.
pub open spec fn persona_label(p: PersonaView) -> Seq<char> {
    emoji_of(p) + " "@ + p.name + (if p.is_builtin { " [内置]"@ } else { Seq::empty() })
}

/// Whether `char::is_alphanumeric` holds of `c` (the Unicode `Alphabetic` or
/// `Numeric` property).
pub uninterp spec fn alphanumeric(c: char) -> bool;

/// Calls `char::is_alphanumeric`. Its documentation gives, for ASCII, exactly
/// the letters and digits; the rest of Unicode is left to the name.
#[verifier::external_body]
fn is_alphanumeric(c: char) -> (b: bool)
    ensures
        b == alphanumeric(c),
        (c as u32) < 128 ==> (b == ((0x30 <= (c as u32) <= 0x39) || (0x41 <= (c as u32) <= 0x5a) || (0x61
            <= (c as u32) <= 0x7a))),
{
    c.is_alphanumeric()
}

/// A persona id holds only letters, digits, `-` and `_`.
pub open spec fn valid_persona_id(id: Seq<char>) -> bool {
    forall|i: int| 0 <= i < id.len() ==> alphanumeric(#[trigger] id[i]) || id[i] == '-' || id[i] == '_'
}

/// The preview of a system prompt: its first 200 bytes and "..." when it is
/// longer than that, else the whole prompt.
pub open spec fn preview_spec(prompt: Seq<char>) -> Seq<char> {
    if encode_utf8(prompt).len() > 200 {
        decode_utf8(encode_utf8(prompt).subrange(0, 200)) + "..."@
    } else {
        prompt
    }
}

/// The preview can be cut: the prompt is at most 200 bytes long, or its 200th
/// byte ends a character.
pub open spec fn preview_cuttable(prompt: Seq<char>) -> bool {
    encode_utf8(prompt).len() <= 200 || is_char_boundary(encode_utf8(prompt), 200)
}

/// Whether a character stays in the plain-text fallback of a message: ASCII
/// letters, digits and the space.
pub open spec fn plain_char(c: char) -> bool {
    let n = c as u32;
    (0x30 <= n <= 0x39) || (0x41 <= n <= 0x5a) || (0x61 <= n <= 0x7a) || n == 0x20
}

/// The characters of `s` that stay in the plain-text fallback.
pub open spec fn plain_chars(s: Seq<char>) -> Seq<char>
    decreases s.len(),
{
    if s.len() == 0 {
        Seq::empty()
    } else if plain_char(s.last()) {
        plain_chars(s.drop_last()).push(s.last())
    } else {
        plain_chars(s.drop_last())
    }
}

/// The plain-text fallback of an HTML message: its first 100 plain characters.
pub open spec fn plain_fallback_spec(html: Seq<char>) -> Seq<char> {
    let p = plain_chars(html);
    if p.len() > 100 { p.take(100) } else { p }
}

/// The plain-text fallback sent beside an HTML message.
pub fn plain_fallback(html: &str) -> (r: String)
    ensures
        r@ == plain_fallback_spec(html@),
{
    let v = chars_of(html);
    let mut r = String::new();
    let mut kept: usize = 0;
    let mut i: usize = 0;
    while i < v.len()
        invariant
            v@ == html@,
            i <= v@.len(),
            kept == r@.len(),
            kept <= 100,
            r@ == (if plain_chars(v@.take(i as int)).len() > 100 {
                plain_chars(v@.take(i as int)).take(100)
            } else {
                plain_chars(v@.take(i as int))
            }),
        decreases v@.len() - i,
    {
        let c = v[i];
        let n = c as u32;
        assert(v@.take(i + 1).drop_last() =~= v@.take(i as int));
        assert(v@.take(i + 1).last() == c);
        if (0x30 <= n && n <= 0x39) || (0x41 <= n && n <= 0x5a) || (0x61 <= n && n <= 0x7a) || n == 0x20 {
            assert(plain_chars(v@.take(i + 1)) == plain_chars(v@.take(i as int)).push(c));
            if kept < 100 {
                push_char(&mut r, c);
                kept = kept + 1;
            } else {
                assert(plain_chars(v@.take(i + 1)).take(100) =~= plain_chars(v@.take(i as int)).take(100));
            }
        }
        i = i + 1;
    }
    assert(v@.take(i as int) =~= v@);
    r
}

/// What `persona` does with its sub-command.
#[derive(Debug, Clone, Copy, PartialEq, Eq, Structural)]
pub enum PersonaAction {
    Assign,
    List,
    Off,
    Info,
    Create,
    Delete,
    Help,
}

/// The help items of `persona`.
pub open spec fn persona_help_items() -> Seq<(Seq<char>, Seq<char>)> {
    seq![
        ("!persona list"@, "列出所有人设"@),
        ("!persona set <id>"@, "设置房间人设（管理员）"@),
        ("!persona off"@, "关闭房间人设（管理员）"@),
        ("!persona info <id>"@, "查看人设详情"@),
        ("!persona create <id> <名称> <提示词>"@, "创建自定义人设（管理员）"@),
        ("!persona delete <id>"@, "删除自定义人设（管理员）"@),
    ]
}

/// The items of the persona list: id and label of each persona.
pub open spec fn persona_list_items(ps: Seq<PersonaView>) -> Seq<(Seq<char>, Seq<char>)> {
    ps.map_values(|p: PersonaView| (p.id, persona_label(p)))
}

pub open spec fn persona_views(ps: Seq<Persona>) -> Seq<PersonaView> {
    ps.map_values(|p: Persona| p@)
}

/// The bot's default name, which it takes back when a persona is turned off.
pub open spec fn default_name() -> Seq<char> {
    "Aether"@
}

/// The name the bot shows before a persona's name: the current name up to its
/// first " (", or the default name when the current name is unknown.
pub open spec fn base_name_spec(current: Option<Seq<char>>) -> Seq<char> {
    let name = match current {
        Some(n) => n,
        None => default_name(),
    };
    let i = first_index(name, " ("@);
    if first_occurrence(name, " ("@, i) {
        name.take(i)
    } else {
        name
    }
}

/// `p` occurs in `s` at `i` and nowhere before.
pub open spec fn first_occurrence(s: Seq<char>, p: Seq<char>, i: int) -> bool {
    occurs_at(s, p, i) && forall|j: int| 0 <= j < i ==> !occurs_at(s, p, j)
}

/// The index of the first occurrence of `p` in `s`, when there is one.
pub open spec fn first_index(s: Seq<char>, p: Seq<char>) -> int {
    choose|i: int| first_occurrence(s, p, i)
}

/// What `create` amounts to with `args` from `creator`: the usage when there
/// are fewer than three arguments, the refusal of an invalid id, else the new
/// persona.
pub open spec fn create_outcome(args: Seq<Seq<char>>, creator: Seq<char>, s: PersonaStep) -> bool {
    if args.len() < 3 {
        s matches PersonaStep::Reply(m) && m@ == status_html(Status::Error, create_usage_text())
    } else if !valid_persona_id(args[0]) {
        s matches PersonaStep::Reply(m) && m@ == status_html(Status::Error, "ID 只能包含字母、数字、连字符和下划线"@)
    } else {
        s matches PersonaStep::Create { persona } && persona@ == (PersonaView {
            id: args[0],
            name: args[1],
            system_prompt: join(args.skip(2), " "@),
            avatar_emoji: None,
            is_builtin: false,
            created_by: Some(creator),
        })
    }
}

/// The usage shown when `create` lacks arguments.
pub open spec fn create_usage_text() -> Seq<char> {
    "参数不足\n用法: !persona create <id> \"<名称>\" \"<提示词>\""@
}

/// The next step of a `persona` command.
pub enum PersonaStep {
    /// Send this message; nothing more to do.
    Reply(String),
    /// List the personas of the store.
    List,
    /// Set the room's persona to this id, if the store has it.
    Assign { id: String },
    /// Turn the room's persona off.
    Off,
    /// Show the persona of this id, if the store has it.
    Show { id: String },
    /// Create this persona, unless its id is taken.
    Create { persona: Persona },
    /// Delete the persona of this id.
    Delete { id: String },
}

/// The sub-commands that only room moderators may run.
pub open spec fn needs_room_mod_spec(a: PersonaAction) -> bool {
    a is Assign || a is Off || a is Create || a is Delete
}

/// The `persona` command and the store it works on.
pub struct PersonaHandler<S> {
    pub store: S,
}

impl<S> PersonaHandler<S> {
    pub fn new(store: S) -> (h: PersonaHandler<S>)
        ensures
            h.store == store,
    {
        PersonaHandler { store }
    }

    /// What the command declares: `persona`, open to anyone.
    pub fn command_info(&self) -> (c: CommandInfo)
        ensures
            c@ == (CommandInfoView {
                name: "persona"@,
                description: "人设管理命令"@,
                usage: "persona <set|list|off|info|create|delete>"@,
                permission: Permission::Anyone,
            }),
    {
        CommandInfo::new("persona", "人设管理命令", "persona <set|list|off|info|create|delete>", Permission::Anyone)
    }

    /// The action for a sub-command; anything unknown shows the help.
    pub fn route(&self, sub: Option<&str>) -> (a: PersonaAction)
        ensures
            sub matches Some(s) && s@ == "set"@ ==> a is Assign,
            sub matches Some(s) && s@ == "list"@ ==> a is List,
            sub matches Some(s) && s@ == "off"@ ==> a is Off,
            sub matches Some(s) && s@ == "info"@ ==> a is Info,
            sub matches Some(s) && s@ == "create"@ ==> a is Create,
            sub matches Some(s) && s@ == "delete"@ ==> a is Delete,
            a is Help <==> !(sub matches Some(s) && (s@ == "set"@ || s@ == "list"@ || s@ == "off"@
                || s@ == "info"@ || s@ == "create"@ || s@ == "delete"@)),
    {
        proof {
            reveal_strlit("set");
            reveal_strlit("list");
            reveal_strlit("off");
            reveal_strlit("info");
            reveal_strlit("create");
            reveal_strlit("delete");
            assert("set"@[0] != "list"@[0] && "set"@[0] != "off"@[0] && "set"@[0] != "info"@[0]
                && "set"@[0] != "create"@[0] && "set"@[0] != "delete"@[0]);
            assert("list"@[0] != "off"@[0] && "list"@[0] != "info"@[0] && "list"@[0] != "create"@[0]
                && "list"@[0] != "delete"@[0]);
            assert("off"@[0] != "info"@[0] && "off"@[0] != "create"@[0] && "off"@[0] != "delete"@[0]);
            assert("info"@[0] != "create"@[0] && "info"@[0] != "delete"@[0]);
            assert("create"@[0] != "delete"@[0]);
        }
        match sub {
            Some(s) => {
                if str_eq(s, "set") {
                    PersonaAction::Assign
                } else if str_eq(s, "list") {
                    PersonaAction::List
                } else if str_eq(s, "off") {
                    PersonaAction::Off
                } else if str_eq(s, "info") {
                    PersonaAction::Info
                } else if str_eq(s, "create") {
                    PersonaAction::Create
                } else if str_eq(s, "delete") {
                    PersonaAction::Delete
                } else {
                    PersonaAction::Help
                }
            },
            None => PersonaAction::Help,
        }
    }

    /// Whether `action` is for room moderators only: `set`, `off`, `create`
    /// and `delete` are.
    pub fn needs_room_mod(&self, action: PersonaAction) -> (b: bool)
        ensures
            b == needs_room_mod_spec(action),
            b <==> (action == PersonaAction::Assign || action == PersonaAction::Off
                || action == PersonaAction::Create || action == PersonaAction::Delete),
    {
        match action {
            PersonaAction::Assign | PersonaAction::Off | PersonaAction::Create | PersonaAction::Delete => true,
            _ => false,
        }
    }

    /// The step that `action` takes with the arguments after the sub-command,
    /// sent by `sender`, who is a room moderator or not: moderator-only actions
    /// are refused to others; `set`, `info` and `delete` need an id; `create`
    /// needs valid arguments; the help is answered at once.
    pub fn plan(&self, action: PersonaAction, sub_args: &[String], sender: &str, is_room_mod: bool) -> (s: PersonaStep)
        ensures
            !is_room_mod && (action == PersonaAction::Assign || action == PersonaAction::Off
                || action == PersonaAction::Create || action == PersonaAction::Delete) ==> (s matches PersonaStep::Reply(m)
                && m@ == status_html(Status::Error, "权限不足: 需要房间管理员权限"@)),
            ({
                let id = join(string_views(sub_args@), " "@);
                if needs_room_mod_spec(action) && !is_room_mod {
                    s matches PersonaStep::Reply(m) && m@ == status_html(Status::Error, "权限不足: 需要房间管理员权限"@)
                } else {
                    match action {
                        PersonaAction::Help => s matches PersonaStep::Reply(m)
                            && m@ == info_card_html("Persona 命令"@, persona_help_items()),
                        PersonaAction::List => s is List,
                        PersonaAction::Off => s is Off,
                        PersonaAction::Assign => if id.len() == 0 {
                            s matches PersonaStep::Reply(m)
                                && m@ == status_html(Status::Error, "请提供人设 ID: !persona "@ + "set"@ + " <id>"@)
                        } else {
                            s matches PersonaStep::Assign { id: x } && x@ == id
                        },
                        PersonaAction::Info => if id.len() == 0 {
                            s matches PersonaStep::Reply(m)
                                && m@ == status_html(Status::Error, "请提供人设 ID: !persona "@ + "info"@ + " <id>"@)
                        } else {
                            s matches PersonaStep::Show { id: x } && x@ == id
                        },
                        PersonaAction::Delete => if id.len() == 0 {
                            s matches PersonaStep::Reply(m)
                                && m@ == status_html(Status::Error, "请提供人设 ID: !persona "@ + "delete"@ + " <id>"@)
                        } else {
                            s matches PersonaStep::Delete { id: x } && x@ == id
                        },
                        PersonaAction::Create => create_outcome(string_views(sub_args@), sender@, s),
                    }
                }
            }),
    {
        if self.needs_room_mod(action) && !is_room_mod {
            return PersonaStep::Reply(self.permission_denied());
        }
        match action {
            PersonaAction::Help => PersonaStep::Reply(self.help_card()),
            PersonaAction::List => PersonaStep::List,
            PersonaAction::Off => PersonaStep::Off,
            PersonaAction::Assign => {
                let id = self.persona_id(sub_args);
                if id.as_str().is_empty() {
                    PersonaStep::Reply(self.missing_id("set"))
                } else {
                    PersonaStep::Assign { id }
                }
            },
            PersonaAction::Info => {
                let id = self.persona_id(sub_args);
                if id.as_str().is_empty() {
                    PersonaStep::Reply(self.missing_id("info"))
                } else {
                    PersonaStep::Show { id }
                }
            },
            PersonaAction::Delete => {
                let id = self.persona_id(sub_args);
                if id.as_str().is_empty() {
                    PersonaStep::Reply(self.missing_id("delete"))
                } else {
                    PersonaStep::Delete { id }
                }
            },
            PersonaAction::Create => match self.parse_create(sub_args, sender) {
                Ok(persona) => PersonaStep::Create { persona },
                Err(m) => PersonaStep::Reply(m),
            },
        }
    }

    /// The help card of `persona`.
    pub fn help_card(&self) -> (r: String)
        ensures
            r@ == info_card_html("Persona 命令"@, persona_help_items()),
    {
        let items: [(&str, &str); 6] = [
            ("!persona list", "列出所有人设"),
            ("!persona set <id>", "设置房间人设（管理员）"),
            ("!persona off", "关闭房间人设（管理员）"),
            ("!persona info <id>", "查看人设详情"),
            ("!persona create <id> <名称> <提示词>", "创建自定义人设（管理员）"),
            ("!persona delete <id>", "删除自定义人设（管理员）"),
        ];
        let r = GlassTemplate::info_card("Persona 命令", items.as_slice());
        assert(crate::ui::templates::pair_views(items@) =~= persona_help_items());
        r
    }

    /// The list of personas: a warning when there is none, else a card of ids
    /// and labels.
    pub fn list_card(&self, personas: &[Persona]) -> (r: String)
        ensures
            personas@.len() == 0 ==> r@ == status_html(Status::Warning, "暂无人设可用"@),
            personas@.len() > 0 ==> r@ == info_card_html("可用人设"@, persona_list_items(persona_views(personas@))),
    {
        if personas.len() == 0 {
            return GlassTemplate::status(Status::Warning, "暂无人设可用");
        }
        let mut labels: Vec<String> = Vec::new();
        let mut i: usize = 0;
        while i < personas.len()
            invariant
                i <= personas@.len(),
                labels@.len() == i,
                forall|k: int| 0 <= k < i ==> (#[trigger] labels@[k])@ == persona_label(personas@[k]@),
            decreases personas@.len() - i,
        {
            labels.push(label(&personas[i]));
            i = i + 1;
        }
        let mut items: Vec<(&str, &str)> = Vec::new();
        let mut j: usize = 0;
        while j < personas.len()
            invariant
                j <= personas@.len(),
                labels@.len() == personas@.len(),
                forall|k: int| 0 <= k < personas@.len() ==> (#[trigger] labels@[k])@ == persona_label(personas@[k]@),
                crate::ui::templates::pair_views(items@) =~= persona_list_items(persona_views(personas@)).take(j as int),
            decreases personas@.len() - j,
        {
            let ghost prev = items@;
            items.push((personas[j].id.as_str(), labels[j].as_str()));
            assert(crate::ui::templates::pair_views(items@) =~= crate::ui::templates::pair_views(prev).push(
                (personas@[j as int]@.id, persona_label(personas@[j as int]@)),
            ));
            assert(persona_list_items(persona_views(personas@)).take(j + 1) =~= persona_list_items(
                persona_views(personas@),
            ).take(j as int).push((personas@[j as int]@.id, persona_label(personas@[j as int]@))));
            j = j + 1;
        }
        assert(persona_list_items(persona_views(personas@)).take(j as int) =~= persona_list_items(persona_views(personas@)));
        GlassTemplate::info_card("可用人设", items.as_slice())
    }

    /// The refusal of a sub-command that needs a room moderator.
    pub fn permission_denied(&self) -> (r: String)
        ensures
            r@ == status_html(Status::Error, "权限不足: 需要房间管理员权限"@),
    {
        GlassTemplate::status(Status::Error, "权限不足: 需要房间管理员权限")
    }

    /// The persona id given after the sub-command: its arguments joined by spaces.
    pub fn persona_id(&self, sub_args: &[String]) -> (r: String)
        ensures
            r@ == join(string_views(sub_args@), " "@),
    {
        join_strings(sub_args, " ")
    }

    /// The error for a missing persona id after `!persona <action>`.
    pub fn missing_id(&self, action: &str) -> (r: String)
        ensures
            r@ == status_html(Status::Error, "请提供人设 ID: !persona "@ + action@ + " <id>"@),
    {
        let mut m = "请提供人设 ID: !persona ".to_owned();
        m.append(action);
        m.append(" <id>");
        GlassTemplate::status(Status::Error, m.as_str())
    }

    /// The error for an unknown persona.
    pub fn not_found(&self, id: &str) -> (r: String)
        ensures
            r@ == status_html(Status::Error, "人设不存在: "@ + id@),
    {
        let mut m = "人设不存在: ".to_owned();
        m.append(id);
        GlassTemplate::status(Status::Error, m.as_str())
    }

    /// The bot's name without a persona suffix.
    pub fn base_display_name(&self, current: Option<&str>) -> (r: String)
        ensures
            r@ == base_name_spec(match current { Some(c) => Some(c@), None => None }),
    {
        let name = match current {
            Some(c) => c,
            None => "Aether",
        };
        let v = chars_of(name);
        proof {
            reveal_strlit(" (");
            assert(" ("@ =~= seq![' ', '(']);
        }
        let mut i: usize = 0;
        while i < v.len()
            invariant
                v@ == name@,
                name@ == (match current { Some(c) => c@, None => "Aether"@ }),
                " ("@ == seq![' ', '('],
                i <= v@.len(),
                forall|j: int| 0 <= j < i ==> !occurs_at(name@, " ("@, j),
            decreases v@.len() - i,
        {
            if i + 1 < v.len() && v[i] == ' ' && v[i + 1] == '(' {
                assert(name@.subrange(i as int, i + 2) =~= " ("@);
                assert(first_occurrence(name@, " ("@, i as int));
                let r = string_from_chars(&v, 0, i);
                proof {
                    let k = first_index(name@, " ("@);
                    assert(first_occurrence(name@, " ("@, k));
                    if k < i {
                        assert(!occurs_at(name@, " ("@, k));
                    }
                    assert(k == i);
                    assert(name@.subrange(0, i as int) =~= name@.take(i as int));
                }
                return r;
            }
            proof {
                if occurs_at(name@, " ("@, i as int) {
                    assert(name@.subrange(i as int, i + 2)[0] == " ("@[0]);
                    assert(name@.subrange(i as int, i + 2)[1] == " ("@[1]);
                }
            }
            i = i + 1;
        }
        proof {
            assert forall|j: int| !first_occurrence(name@, " ("@, j) by {
                if 0 <= j && j + 2 <= name@.len() {
                    assert(j < i);
                }
            }
        }
        name.to_owned()
    }

    /// The bot's name under a persona: the base name and the persona's name in
    /// brackets.
    pub fn display_name_with(&self, base: &str, persona_name: &str) -> (r: String)
        ensures
            r@ == base@ + " ("@ + persona_name@ + ")"@,
    {
        let mut r = base.to_owned();
        r.append(" (");
        r.append(persona_name);
        r.append(")");
        r
    }

    /// The confirmation of `set`.
    pub fn set_success(&self, persona: &Persona, new_display_name: &str) -> (r: String)
        ensures
            r@ == status_html(
                Status::Success,
                "已设置人设: "@ + emoji_of(persona@) + " "@ + persona@.name + "
Bot 名称已更新为: "@ + new_display_name@,
            ),
    {
        let mut m = "已设置人设: ".to_owned();
        match &persona.avatar_emoji {
            Some(e) => m.append(e.as_str()),
            None => {
                proof { reveal_strlit(""); }
                m.append("")
            },
        }
        m.append(" ");
        m.append(persona.name.as_str());
        m.append("\nBot 名称已更新为: ");
        m.append(new_display_name);
        GlassTemplate::status(Status::Success, m.as_str())
    }

    /// The name the bot takes when its persona is turned off.
    pub fn default_display_name(&self) -> (r: &'static str)
        ensures
            r@ == default_name(),
    {
        "Aether"
    }

    /// The confirmation of `off`: the bot's name is back to the default.
    pub fn off_success(&self) -> (r: String)
        ensures
            r@ == status_html(Status::Success, "已关闭当前房间的人设\nBot 名称已恢复为: "@ + default_name()),
    {
        let mut m = "已关闭当前房间的人设\nBot 名称已恢复为: ".to_owned();
        m.append(self.default_display_name());
        GlassTemplate::status(Status::Success, m.as_str())
    }

    /// The details of a persona: id, label, and a preview of its prompt.
    pub fn detail_card(&self, persona: &Persona) -> (r: String)
        requires
            preview_cuttable(persona@.system_prompt),
        ensures
            r@ == info_card_html(
                "人设详情"@,
                seq![
                    ("ID"@, persona@.id),
                    ("名称"@, persona_label(persona@)),
                    ("提示词预览"@, preview_spec(persona@.system_prompt)),
                ],
            ),
    {
        let l = label(persona);
        let preview = prompt_preview(persona.system_prompt.as_str());
        let items: [(&str, &str); 3] = [
            ("ID", persona.id.as_str()),
            ("名称", l.as_str()),
            ("提示词预览", preview.as_str()),
        ];
        let r = GlassTemplate::info_card("人设详情", items.as_slice());
        assert(crate::ui::templates::pair_views(items@) =~= seq![
            ("ID"@, persona@.id),
            ("名称"@, persona_label(persona@)),
            ("提示词预览"@, preview_spec(persona@.system_prompt)),
        ]);
        r
    }

    /// The new persona that `create <id> <name> <prompt...>` asks for, by
    /// `creator`, or the error to send: fewer than three arguments give the
    /// usage; an id with other characters than letters, digits, `-` and `_` is
    /// refused.
    pub fn parse_create(&self, sub_args: &[String], creator: &str) -> (r: Result<Persona, String>)
        ensures
            sub_args@.len() < 3 ==> (r matches Err(e) && e@ == status_html(Status::Error, create_usage_text())),
            sub_args@.len() >= 3 && !valid_persona_id(sub_args@[0]@) ==> (r matches Err(e) && e@ == status_html(
                Status::Error,
                "ID 只能包含字母、数字、连字符和下划线"@,
            )),
            sub_args@.len() >= 3 && valid_persona_id(sub_args@[0]@) ==> (r matches Ok(p) && p@ == (PersonaView {
                id: sub_args@[0]@,
                name: sub_args@[1]@,
                system_prompt: join(string_views(sub_args@).skip(2), " "@),
                avatar_emoji: None,
                is_builtin: false,
                created_by: Some(creator@),
            })),
    {
        if sub_args.len() < 3 {
            return Err(GlassTemplate::status(Status::Error, "参数不足\n用法: !persona create <id> \"<名称>\" \"<提示词>\""));
        }
        let id = sub_args[0].clone();
        let name = sub_args[1].clone();
        let (_, rest) = sub_args.split_at(2);
        let system_prompt = join_strings(rest, " ");
        assert(string_views(rest@) =~= string_views(sub_args@).skip(2));
        if !valid_id(id.as_str()) {
            return Err(GlassTemplate::status(Status::Error, "ID 只能包含字母、数字、连字符和下划线"));
        }
        Ok(Persona {
            id,
            name,
            system_prompt,
            avatar_emoji: None,
            is_builtin: false,
            created_by: Some(creator.to_owned()),
        })
    }

    /// The error for an id that is taken.
    pub fn id_taken(&self, id: &str) -> (r: String)
        ensures
            r@ == status_html(Status::Error, "人设 ID 已存在: "@ + id@),
    {
        let mut m = "人设 ID 已存在: ".to_owned();
        m.append(id);
        GlassTemplate::status(Status::Error, m.as_str())
    }

    /// The confirmation of `create`.
    pub fn created(&self, persona: &Persona) -> (r: String)
        ensures
            r@ == status_html(
                Status::Success,
                "已创建人设: "@ + persona@.name + "\n使用 !persona set "@ + persona@.id + " 来启用"@,
            ),
    {
        let mut m = "已创建人设: ".to_owned();
        m.append(persona.name.as_str());
        m.append("\n使用 !persona set ");
        m.append(persona.id.as_str());
        m.append(" 来启用");
        GlassTemplate::status(Status::Success, m.as_str())
    }

    /// The answer to `delete`, given whether the store deleted the persona.
    pub fn delete_result(&self, id: &str, deleted: bool) -> (r: String)
        ensures
            deleted ==> r@ == status_html(Status::Success, "已删除人设: "@ + id@),
            !deleted ==> r@ == status_html(Status::Error, "无法删除: 人设不存在或为内置人设: "@ + id@),
    {
        if deleted {
            let mut m = "已删除人设: ".to_owned();
            m.append(id);
            GlassTemplate::status(Status::Success, m.as_str())
        } else {
            let mut m = "无法删除: 人设不存在或为内置人设: ".to_owned();
            m.append(id);
            GlassTemplate::status(Status::Error, m.as_str())
        }
    }
}

/// How a persona is listed.
pub fn label(p: &Persona) -> (r: String)
    ensures
        r@ == persona_label(p@),
        !p.is_builtin ==> r@ == (match p.avatar_emoji { Some(e) => e@, None => Seq::<char>::empty() }) + " "@ + p.name@,
        p.is_builtin ==> r@ == (match p.avatar_emoji { Some(e) => e@, None => Seq::<char>::empty() }) + " "@ + p.name@ + " [内置]"@,
{
    let mut r = match &p.avatar_emoji {
        Some(e) => e.clone(),
        None => String::new(),
    };
    r.append(" ");
    r.append(p.name.as_str());
    if p.is_builtin {
        r.append(" [内置]");
    } else {
        assert(r@ =~= r@ + Seq::<char>::empty());
    }
    r
}

/// Whether `id` is a valid persona id.
pub fn valid_id(id: &str) -> (b: bool)
    ensures
        b == valid_persona_id(id@),
{
    let v = chars_of(id);
    let mut i: usize = 0;
    while i < v.len()
        invariant
            v@ == id@,
            i <= v@.len(),
            forall|k: int| 0 <= k < i ==> alphanumeric(#[trigger] id@[k]) || id@[k] == '-' || id@[k] == '_',
        decreases v@.len() - i,
    {
        let c = v[i];
        if !(is_alphanumeric(c) || c == '-' || c == '_') {
            return false;
        }
        i = i + 1;
    }
    true
}

/// Whether the preview of `prompt` can be cut.
pub fn preview_fits(prompt: &str) -> (b: bool)
    ensures
        b == preview_cuttable(prompt@),
{
    prompt.as_bytes().len() <= 200 || prompt.is_char_boundary(200)
}

/// The preview of a system prompt.
pub fn prompt_preview(prompt: &str) -> (r: String)
    requires
        preview_cuttable(prompt@),
    ensures
        r@ == preview_spec(prompt@),
{
    if prompt.as_bytes().len() > 200 {
        let (head, _) = prompt.split_at(200);
        proof {
            encode_utf8_decode_utf8(head@);
            assert(head.spec_bytes() == encode_utf8(head@));
            assert(head@ == decode_utf8(encode_utf8(prompt@).subrange(0, 200)));
        }
        let mut r = head.to_owned();
        r.append("...");
        r
    } else {
        prompt.to_owned()
    }
}

/// Setting, turning off, creating and deleting a persona are for room
/// moderators only, whatever the arguments; listing, showing a persona and the
/// help are open to everyone.
pub proof fn law_moderator_only_actions(a: PersonaAction)
    ensures
        needs_room_mod_spec(a) <==> (a == PersonaAction::Assign || a == PersonaAction::Off
            || a == PersonaAction::Create || a == PersonaAction::Delete),
        !needs_room_mod_spec(PersonaAction::List),
        !needs_room_mod_spec(PersonaAction::Info),
        !needs_room_mod_spec(PersonaAction::Help),
{
}

/// A persona is listed as its emoji, a space and its name, and only a built-in
/// persona carries the " [内置]" mark after that.
pub proof fn law_only_builtin_personas_are_marked(p: PersonaView)
    ensures
        !p.is_builtin ==> persona_label(p) == emoji_of(p) + " "@ + p.name,
        p.is_builtin ==> persona_label(p) == emoji_of(p) + " "@ + p.name + " [内置]"@,
        emoji_of(p) == (match p.avatar_emoji { Some(e) => e, None => Seq::<char>::empty() }),
{
    if !p.is_builtin {
        assert(emoji_of(p) + " "@ + p.name + Seq::<char>::empty() =~= emoji_of(p) + " "@ + p.name);
    }
}

proof fn lemma_plain_chars_of_plain(s: Seq<char>)
    requires
        forall|i: int| 0 <= i < s.len() ==> #[trigger] plain_char(s[i]),
    ensures
        plain_chars(s) == s,
    decreases s.len(),
{
    if s.len() > 0 {
        lemma_plain_chars_of_plain(s.drop_last());
        assert(plain_char(s[s.len() - 1]));
        assert(s.drop_last().push(s.last()) =~= s);
    }
}

proof fn lemma_plain_chars_are_plain(s: Seq<char>)
    ensures
        plain_chars(s).len() <= s.len(),
        forall|i: int| 0 <= i < plain_chars(s).len() ==> #[trigger] plain_char(plain_chars(s)[i]),
    decreases s.len(),
{
    if s.len() > 0 {
        lemma_plain_chars_are_plain(s.drop_last());
    }
}

/// The plain-text fallback is made of ASCII letters, digits and spaces only,
/// at most 100 of them; and a text made only of such characters, at most 100
/// long, is its own fallback: no letter, digit or space is dropped.
pub proof fn law_plain_fallback_keeps_letters_digits_spaces(html: Seq<char>)
    ensures
        plain_fallback_spec(html).len() <= 100,
        forall|i: int| 0 <= i < plain_fallback_spec(html).len() ==> {
            let n = (#[trigger] plain_fallback_spec(html)[i]) as u32;
            (0x30 <= n <= 0x39) || (0x41 <= n <= 0x5a) || (0x61 <= n <= 0x7a) || n == 0x20
        },
        html.len() <= 100 && (forall|i: int| 0 <= i < html.len() ==> {
            let n = (#[trigger] html[i]) as u32;
            (0x30 <= n <= 0x39) || (0x41 <= n <= 0x5a) || (0x61 <= n <= 0x7a) || n == 0x20
        }) ==> plain_fallback_spec(html) == html,
{
    lemma_plain_chars_are_plain(html);
    let p = plain_chars(html);
    assert forall|i: int| 0 <= i < plain_fallback_spec(html).len() implies {
        let n = (#[trigger] plain_fallback_spec(html)[i]) as u32;
        (0x30 <= n <= 0x39) || (0x41 <= n <= 0x5a) || (0x61 <= n <= 0x7a) || n == 0x20
    } by {
        assert(plain_fallback_spec(html)[i] == p[i]);
        assert(plain_char(p[i]));
    }
    if html.len() <= 100 && (forall|i: int| 0 <= i < html.len() ==> {
        let n = (#[trigger] html[i]) as u32;
        (0x30 <= n <= 0x39) || (0x41 <= n <= 0x5a) || (0x61 <= n <= 0x7a) || n == 0x20
    }) {
        assert forall|i: int| 0 <= i < html.len() implies #[trigger] plain_char(html[i]) by {
            let n = html[i] as u32;
            assert((0x30 <= n <= 0x39) || (0x41 <= n <= 0x5a) || (0x61 <= n <= 0x7a) || n == 0x20);
        }
        lemma_plain_chars_of_plain(html);
    }
}

} // verus!
