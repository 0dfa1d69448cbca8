//! The registry of command handlers, kept in order of command name.

use vstd::prelude::*;
use crate::command::permission::{Permission, display_name_spec};
use crate::text::{chars_of, str_eq};

verus! {

/// The order of `str`: lexicographic by character, which is the order of the
/// UTF-8 bytes.
pub open spec fn name_lt(a: Seq<char>, b: Seq<char>) -> bool
    decreases a.len(),
{
    if a.len() == 0 {
        b.len() > 0
    } else if b.len() == 0 {
        false
    } else if a[0] != b[0] {
        (a[0] as u32) < (b[0] as u32)
    } else {
        name_lt(a.skip(1), b.skip(1))
    }
}

/// `name_lt` is a strict total order.
pub proof fn lemma_name_lt_order(a: Seq<char>, b: Seq<char>)
    ensures
        !name_lt(a, a),
        !(name_lt(a, b) && name_lt(b, a)),
        a != b ==> name_lt(a, b) || name_lt(b, a),
    decreases a.len(),
{
    if a.len() > 0 && b.len() > 0 {
        lemma_name_lt_order(a.skip(1), b.skip(1));
        lemma_name_lt_order(a.skip(1), a.skip(1));
        if a[0] == b[0] && a != b {
            assert(a =~= seq![a[0]] + a.skip(1));
            assert(b =~= seq![b[0]] + b.skip(1));
        }
        lemma_char_code(a[0], b[0]);
    } else if a.len() > 0 {
        lemma_name_lt_order(a.skip(1), a.skip(1));
    } else if b.len() == 0 {
        assert(a =~= b);
    }
}

proof fn lemma_char_code(a: char, b: char)
    ensures
        (a as u32) == (b as u32) ==> a == b,
{
}

/// Whether `a` comes before `b` in the order of `str`.
pub fn name_less(a: &str, b: &str) -> (r: bool)
    ensures
        r == name_lt(a@, b@),
{
    let va = chars_of(a);
    let vb = chars_of(b);
    let mut i: usize = 0;
    assert(a@.skip(0) =~= a@ && b@.skip(0) =~= b@);
    while i < va.len() && i < vb.len() && va[i] == vb[i]
        invariant
            va@ == a@,
            vb@ == b@,
            i <= va@.len(),
            i <= vb@.len(),
            name_lt(a@, b@) == name_lt(a@.skip(i as int), b@.skip(i as int)),
        decreases va@.len() - i,
    {
        assert(a@.skip(i as int).skip(1) =~= a@.skip(i + 1));
        assert(b@.skip(i as int).skip(1) =~= b@.skip(i + 1));
        i = i + 1;
    }
    if i == va.len() {
        i < vb.len()
    } else if i == vb.len() {
        false
    } else {
        (va[i] as u32) < (vb[i] as u32)
    }
}

/// What a command declares about itself.
pub struct CommandInfo {
    /// The command name, without the prefix.
    pub name: String,
    pub description: String,
    /// How to use the command; empty when there is nothing to say.
    pub usage: String,
    pub permission: Permission,
}

/// The mathematical value of a `CommandInfo`.
pub struct CommandInfoView {
    pub name: Seq<char>,
    pub description: Seq<char>,
    pub usage: Seq<char>,
    pub permission: Permission,
}

impl View for CommandInfo {
    type V = CommandInfoView;

    open spec fn view(&self) -> CommandInfoView {
        CommandInfoView {
            name: self.name@,
            description: self.description@,
            usage: self.usage@,
            permission: self.permission,
        }
    }
}

impl CommandInfo {
    pub fn new(name: &str, description: &str, usage: &str, permission: Permission) -> (c: CommandInfo)
        ensures
            c@ == (CommandInfoView { name: name@, description: description@, usage: usage@, permission }),
    {
        CommandInfo {
            name: name.to_owned(),
            description: description.to_owned(),
            usage: usage.to_owned(),
            permission,
        }
    }

    /// A command that declares only its name: no description ("暂无描述"), no
    /// usage, open to anyone.
    pub fn named(name: &str) -> (c: CommandInfo)
        ensures
            c@ == (CommandInfoView {
                name: name@,
                description: "暂无描述"@,
                usage: ""@,
                permission: Permission::Anyone,
            }),
    {
        CommandInfo::new(name, "暂无描述", "", Permission::Anyone)
    }
}

/// A sub-command of a command, as it is described to users.
pub struct SubCommand {
    pub name: String,
    pub description: String,
    pub usage: String,
}

/// The entries of a registry, in order of name.
pub open spec fn sorted_names<H>(s: Seq<(CommandInfoView, H)>) -> bool {
    forall|i: int, j: int| 0 <= i < j < s.len() ==> name_lt(#[trigger] s[i].0.name, #[trigger] s[j].0.name)
}

/// The number of leading entries whose name comes before `name`.
pub open spec fn lower_bound<H>(s: Seq<(CommandInfoView, H)>, name: Seq<char>) -> nat
    decreases s.len(),
{
    if s.len() > 0 && name_lt(s[0].0.name, name) {
        1 + lower_bound(s.skip(1), name)
    } else {
        0
    }
}

/// The entries after registering `e`: it replaces the entry of the same name,
/// or is inserted where the order of names puts it.
pub open spec fn register_spec<H>(s: Seq<(CommandInfoView, H)>, e: (CommandInfoView, H)) -> Seq<(CommandInfoView, H)> {
    let p = lower_bound(s, e.0.name) as int;
    if p < s.len() && s[p].0.name == e.0.name {
        s.update(p, e)
    } else {
        s.insert(p, e)
    }
}

/// The entry named `name`, if there is one.
pub open spec fn lookup<H>(s: Seq<(CommandInfoView, H)>, name: Seq<char>) -> Option<(CommandInfoView, H)> {
    if exists|i: int| 0 <= i < s.len() && s[i].0.name == name {
        Some(s[choose|i: int| 0 <= i < s.len() && s[i].0.name == name])
    } else {
        None
    }
}

/// The help lines of one command.
pub open spec fn entry_help(c: CommandInfoView) -> Seq<char> {
    "**!"@ + c.name + "** - "@ + c.description + "\n"@
        + (if c.usage.len() > 0 { "  用法: "@ + c.usage + "\n"@ } else { Seq::empty() })
        + (if c.permission != Permission::Anyone {
            "  权限: "@ + display_name_spec(c.permission) + "\n"@
        } else {
            Seq::empty()
        })
        + "\n"@
}

pub open spec fn entries_help<H>(s: Seq<(CommandInfoView, H)>) -> Seq<char>
    decreases s.len(),
{
    if s.len() == 0 {
        Seq::empty()
    } else {
        entries_help(s.drop_last()) + entry_help(s.last().0)
    }
}

/// The help text: a heading, then each command in order of name.
pub open spec fn help_text<H>(s: Seq<(CommandInfoView, H)>) -> Seq<char> {
    "可用命令:\n\n"@ + entries_help(s)
}

/// In a sorted registry, `lookup` finds the entry at index `i` by its name.
pub proof fn lemma_lookup_at<H>(s: Seq<(CommandInfoView, H)>, i: int)
    requires
        sorted_names(s),
        0 <= i < s.len(),
    ensures
        lookup(s, s[i].0.name) == Some(s[i]),
{
    let name = s[i].0.name;
    assert(exists|k: int| 0 <= k < s.len() && s[k].0.name == name);
    let k = choose|k: int| 0 <= k < s.len() && s[k].0.name == name;
    if k != i {
        law_names_unique(s, k, i);
    }
}

struct Entry<H> {
    info: CommandInfo,
    handler: H,
}

spec fn entry_views<H>(v: Seq<Entry<H>>) -> Seq<(CommandInfoView, H)> {
    v.map_values(|e: Entry<H>| (e.info@, e.handler))
}

fn append_entry_help(help: &mut String, c: &CommandInfo)
    ensures
        final(help)@ == old(help)@ + entry_help(c@),
{
    let ghost start = help@;
    help.append("**!");
    help.append(c.name.as_str());
    help.append("** - ");
    help.append(c.description.as_str());
    help.append("\n");
    let ghost before_usage = help@;
    if !c.usage.as_str().is_empty() {
        help.append("  用法: ");
        help.append(c.usage.as_str());
        help.append("\n");
    } else {
        assert(help@ =~= before_usage + Seq::<char>::empty());
    }
    let ghost before_perm = help@;
    if c.permission != Permission::Anyone {
        help.append("  权限: ");
        help.append(c.permission.display_name());
        help.append("\n");
    } else {
        assert(help@ =~= before_perm + Seq::<char>::empty());
    }
    help.append("\n");
    assert(help@ =~= start + entry_help(c@));
}

/// The registered command handlers, in order of command name; one per name.
pub struct CommandRegistry<H> {
    entries: Vec<Entry<H>>,
}

impl<H> View for CommandRegistry<H> {
    type V = Seq<(CommandInfoView, H)>;

    closed spec fn view(&self) -> Seq<(CommandInfoView, H)> {
        entry_views(self.entries@)
    }
}

impl<H> CommandRegistry<H> {
    #[verifier::type_invariant]
    spec fn well_formed(self) -> bool {
        sorted_names(entry_views(self.entries@))
    }

    /// An empty registry.
    pub fn new() -> (r: CommandRegistry<H>)
        ensures
            r@ == Seq::<(CommandInfoView, H)>::empty(),
            sorted_names(r@),
    {
        let r = CommandRegistry { entries: Vec::new() };
        assert(entry_views(r.entries@) =~= Seq::<(CommandInfoView, H)>::empty());
        r
    }

    /// The entries are in order of name.
    pub fn entries_sorted(&self)
        ensures
            sorted_names(self@),
    {
        proof { use_type_invariant(self); }
    }

    /// Registers `handler` under `info.name`, replacing a handler of that name.
    pub fn register(&mut self, info: CommandInfo, handler: H)
        ensures
            final(self)@ == register_spec(old(self)@, (info@, handler)),
            sorted_names(final(self)@),
    {
        proof { use_type_invariant(&*self); }
        let mut entries: Vec<Entry<H>> = Vec::new();
        std::mem::swap(&mut entries, &mut self.entries);
        let ghost s = entry_views(entries@);
        let ghost e = (info@, handler);
        let mut i: usize = 0;
        assert(s.skip(0) =~= s);
        while i < entries.len() && name_less(entries[i].info.name.as_str(), info.name.as_str())
            invariant
                s == entry_views(entries@),
                i <= entries@.len(),
                lower_bound(s, info@.name) == i + lower_bound(s.skip(i as int), info@.name),
                forall|k: int| 0 <= k < i ==> name_lt(#[trigger] s[k].0.name, info@.name),
            decreases entries@.len() - i,
        {
            assert(s.skip(i as int).skip(1) =~= s.skip(i + 1));
            i = i + 1;
        }
        assert(lower_bound(s, info@.name) == i);
        if i < entries.len() && str_eq(entries[i].info.name.as_str(), info.name.as_str()) {
            let new_entry = Entry { info, handler };
            entries.set(i, new_entry);
            proof {
                assert(entry_views(entries@) =~= s.update(i as int, e));
                assert forall|a: int, b: int| 0 <= a < b < s.len() implies
                    name_lt(#[trigger] s.update(i as int, e)[a].0.name, #[trigger] s.update(i as int, e)[b].0.name) by {
                    assert(s[a].0.name == s.update(i as int, e)[a].0.name);
                    assert(s[b].0.name == s.update(i as int, e)[b].0.name);
                }
            }
        } else {
            proof {
                if i < entries.len() {
                    lemma_name_lt_order(s[i as int].0.name, info@.name);
                }
                assert forall|k: int| i <= k < s.len() implies name_lt(info@.name, #[trigger] s[k].0.name) by {
                    if k > i {
                        lemma_name_lt_order(s[i as int].0.name, info@.name);
                        lemma_name_lt_order(info@.name, s[k].0.name);
                        lemma_name_lt_order(s[i as int].0.name, s[k].0.name);
                        lemma_name_lt_trans(info@.name, s[i as int].0.name, s[k].0.name);
                    }
                }
            }
            let new_entry = Entry { info, handler };
            entries.insert(i, new_entry);
            proof {
                let t = s.insert(i as int, e);
                assert(entry_views(entries@) =~= t);
                assert forall|a: int, b: int| 0 <= a < b < t.len() implies
                    name_lt(#[trigger] t[a].0.name, #[trigger] t[b].0.name) by {
                    if b < i {
                        assert(t[a] == s[a] && t[b] == s[b]);
                    } else if b == i {
                        assert(t[a] == s[a]);
                    } else if a < i {
                        assert(t[a] == s[a] && t[b] == s[b - 1]);
                        lemma_name_lt_trans(s[a].0.name, info@.name, s[b - 1].0.name);
                    } else if a == i {
                        assert(t[b] == s[b - 1]);
                    } else {
                        assert(t[a] == s[a - 1] && t[b] == s[b - 1]);
                    }
                }
            }
        }
        self.entries = entries;
    }

    fn find(&self, name: &str) -> (r: Option<usize>)
        ensures
            match r {
                Some(i) => i < self@.len() && self@[i as int].0.name == name@
                    && lookup(self@, name@) == Some(self@[i as int]),
                None => lookup(self@, name@) is None,
            },
    {
        proof { use_type_invariant(self); }
        let mut i: usize = 0;
        while i < self.entries.len()
            invariant
                i <= self@.len(),
                self@ == entry_views(self.entries@),
                sorted_names(self@),
                forall|k: int| 0 <= k < i ==> self@[k].0.name != name@,
            decreases self@.len() - i,
        {
            if str_eq(self.entries[i].info.name.as_str(), name) {
                proof { lemma_lookup_at(self@, i as int); }
                return Some(i);
            }
            i = i + 1;
        }
        None
    }

    /// The handler registered under `name`, if any.
    pub fn get(&self, name: &str) -> (r: Option<&H>)
        ensures
            match r {
                Some(h) => lookup(self@, name@) is Some && lookup(self@, name@).unwrap().1 == *h,
                None => lookup(self@, name@) is None,
            },
    {
        match self.find(name) {
            Some(i) => Some(&self.entries[i].handler),
            None => None,
        }
    }

    /// The declared information and the handler registered under `name`, if any.
    pub fn get_entry(&self, name: &str) -> (r: Option<(&CommandInfo, &H)>)
        ensures
            match r {
                Some((c, h)) => lookup(self@, name@) == Some((c@, *h)),
                None => lookup(self@, name@) is None,
            },
    {
        match self.find(name) {
            Some(i) => Some((&self.entries[i].info, &self.entries[i].handler)),
            None => None,
        }
    }

    /// The names of all registered commands, in order.
    pub fn commands(&self) -> (r: Vec<&str>)
        ensures
            r@.len() == self@.len(),
            forall|i: int| 0 <= i < r@.len() ==> (#[trigger] r@[i])@ == self@[i].0.name,
    {
        let mut r: Vec<&str> = Vec::new();
        let mut i: usize = 0;
        while i < self.entries.len()
            invariant
                i <= self@.len(),
                self@ == entry_views(self.entries@),
                r@.len() == i,
                forall|k: int| 0 <= k < i ==> (#[trigger] r@[k])@ == self@[k].0.name,
            decreases self@.len() - i,
        {
            r.push(self.entries[i].info.name.as_str());
            i = i + 1;
        }
        r
    }

    /// The help text that lists every command in order of name.
    pub fn generate_help(&self) -> (r: String)
        ensures
            r@ == help_text(self@),
    {
        let mut help = "可用命令:\n\n".to_owned();
        let mut i: usize = 0;
        while i < self.entries.len()
            invariant
                i <= self@.len(),
                self@ == entry_views(self.entries@),
                help@ == "可用命令:\n\n"@ + entries_help(self@.take(i as int)),
            decreases self@.len() - i,
        {
            let c = &self.entries[i].info;
            append_entry_help(&mut help, c);
            proof {
                assert(self@.take(i + 1).drop_last() =~= self@.take(i as int));
                assert(self@.take(i + 1).last() == self@[i as int]);
            }
            i = i + 1;
        }
        assert(self@.take(i as int) =~= self@);
        help
    }
}

/// `name_lt` is transitive.
pub proof fn lemma_name_lt_trans(a: Seq<char>, b: Seq<char>, c: Seq<char>)
    requires
        name_lt(a, b),
        name_lt(b, c),
    ensures
        name_lt(a, c),
    decreases a.len(),
{
    if a.len() > 0 && b.len() > 0 && c.len() > 0 {
        if a[0] == b[0] && b[0] == c[0] {
            lemma_name_lt_trans(a.skip(1), b.skip(1), c.skip(1));
        }
    }
}

impl<H> Default for CommandRegistry<H> {
    fn default() -> (r: CommandRegistry<H>)
        ensures
            r@ == Seq::<(CommandInfoView, H)>::empty(),
    {
        CommandRegistry::new()
    }
}

proof fn lemma_lower_bound<H>(s: Seq<(CommandInfoView, H)>, name: Seq<char>)
    ensures
        lower_bound(s, name) <= s.len(),
        forall|k: int| 0 <= k < lower_bound(s, name) ==> name_lt(#[trigger] s[k].0.name, name),
        lower_bound(s, name) < s.len() ==> !name_lt(s[lower_bound(s, name) as int].0.name, name),
    decreases s.len(),
{
    if s.len() > 0 && name_lt(s[0].0.name, name) {
        lemma_lower_bound(s.skip(1), name);
        assert forall|k: int| 0 <= k < lower_bound(s, name) implies name_lt(#[trigger] s[k].0.name, name) by {
            if k > 0 {
                assert(s[k] == s.skip(1)[k - 1]);
            }
        }
    }
}

/// Registering keeps the commands in order of name; afterwards the name finds
/// the registered entry, and every other name finds what it found before.
pub proof fn law_register_then_lookup<H>(s: Seq<(CommandInfoView, H)>, e: (CommandInfoView, H), other: Seq<char>)
    requires
        sorted_names(s),
        other != e.0.name,
    ensures
        sorted_names(register_spec(s, e)),
        lookup(register_spec(s, e), e.0.name) == Some(e),
        lookup(register_spec(s, e), other) == lookup(s, other),
{
    let name = e.0.name;
    let p = lower_bound(s, name) as int;
    lemma_lower_bound(s, name);
    let t = register_spec(s, e);
    if p < s.len() && s[p].0.name == name {
        assert forall|a: int, b: int| 0 <= a < b < t.len() implies name_lt(#[trigger] t[a].0.name, #[trigger] t[b].0.name) by {
            assert(t[a].0.name == s[a].0.name);
            assert(t[b].0.name == s[b].0.name);
        }
        lemma_lookup_at(t, p);
        if exists|i: int| 0 <= i < t.len() && t[i].0.name == other {
            let i = choose|i: int| 0 <= i < t.len() && t[i].0.name == other;
            assert(t[i] == s[i]);
            lemma_lookup_at(t, i);
            lemma_lookup_at(s, i);
        } else {
            assert forall|i: int| 0 <= i < s.len() implies s[i].0.name != other by {
                assert(t[i].0.name == s[i].0.name);
            }
        }
    } else {
        if p < s.len() {
            lemma_name_lt_order(s[p].0.name, name);
        }
        assert forall|k: int| p <= k < s.len() implies name_lt(name, #[trigger] s[k].0.name) by {
            lemma_name_lt_order(s[p].0.name, name);
            if k > p {
                lemma_name_lt_trans(name, s[p].0.name, s[k].0.name);
            }
        }
        assert forall|a: int, b: int| 0 <= a < b < t.len() implies name_lt(#[trigger] t[a].0.name, #[trigger] t[b].0.name) by {
            if b < p {
                assert(t[a] == s[a] && t[b] == s[b]);
            } else if b == p {
                assert(t[a] == s[a]);
            } else if a < p {
                assert(t[a] == s[a] && t[b] == s[b - 1]);
                lemma_name_lt_trans(s[a].0.name, name, s[b - 1].0.name);
            } else if a == p {
                assert(t[b] == s[b - 1]);
            } else {
                assert(t[a] == s[a - 1] && t[b] == s[b - 1]);
            }
        }
        assert(t[p] == e);
        lemma_lookup_at(t, p);
        if exists|i: int| 0 <= i < t.len() && t[i].0.name == other {
            let i = choose|i: int| 0 <= i < t.len() && t[i].0.name == other;
            lemma_lookup_at(t, i);
            if i < p {
                assert(t[i] == s[i]);
                lemma_lookup_at(s, i);
            } else {
                assert(i != p);
                assert(t[i] == s[i - 1]);
                lemma_lookup_at(s, i - 1);
            }
        } else {
            assert forall|i: int| 0 <= i < s.len() implies s[i].0.name != other by {
                if i < p {
                    assert(t[i] == s[i]);
                } else {
                    assert(t[i + 1] == s[i]);
                }
            }
        }
    }
}

/// The names of the registered commands.
pub open spec fn command_names<H>(s: Seq<(CommandInfoView, H)>) -> Set<Seq<char>> {
    Set::new(|n: Seq<char>| exists|i: int| 0 <= i < s.len() && s[i].0.name == n)
}

/// Registering a command adds its name to the names and takes none away: the
/// names afterwards are the names before and the new one, with one entry each.
pub proof fn law_register_names<H>(s: Seq<(CommandInfoView, H)>, e: (CommandInfoView, H))
    requires
        sorted_names(s),
    ensures
        command_names(register_spec(s, e)) == command_names(s).insert(e.0.name),
        forall|i: int, j: int|
            0 <= i < register_spec(s, e).len() && 0 <= j < register_spec(s, e).len() && i != j
                ==> register_spec(s, e)[i].0.name != register_spec(s, e)[j].0.name,
{
    let t = register_spec(s, e);
    let name = e.0.name;
    assert forall|n: Seq<char>| #[trigger] command_names(t).contains(n) == command_names(s).insert(name).contains(n) by {
        if n == name {
            law_register_then_lookup(s, e, name.push('x'));
            assert(lookup(t, name) is Some);
        } else {
            law_register_then_lookup(s, e, n);
            assert(lookup(t, n) == lookup(s, n));
        }
    }
    assert(command_names(t) =~= command_names(s).insert(name));
    law_register_then_lookup(s, e, name.push('x'));
    assert forall|i: int, j: int| 0 <= i < t.len() && 0 <= j < t.len() && i != j implies t[i].0.name != t[j].0.name by {
        law_names_unique(t, i, j);
    }
}

/// A registry holds at most one entry per command name.
pub proof fn law_names_unique<H>(s: Seq<(CommandInfoView, H)>, i: int, j: int)
    requires
        sorted_names(s),
        0 <= i < s.len(),
        0 <= j < s.len(),
        i != j,
    ensures
        s[i].0.name != s[j].0.name,
{
    if i < j {
        lemma_name_lt_order(s[i].0.name, s[j].0.name);
    } else {
        lemma_name_lt_order(s[j].0.name, s[i].0.name);
    }
}

} // verus!
