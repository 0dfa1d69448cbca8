//! Routing of command messages to their handlers.

use vstd::prelude::*;
use crate::command::parser::{ParsedCommand, Parser, parse_spec};
use crate::command::permission::{Permission, display_name_spec, grants_spec, string_views};
use crate::command::registry::{CommandInfo, CommandInfoView, CommandRegistry, help_text, lookup, register_spec, sorted_names};
use crate::text::str_eq;

verus! {

/// The reply to an unknown command.
pub open spec fn unknown_text(cmd: Seq<char>) -> Seq<char> {
    "未知命令: "@ + cmd + "\n\n使用 !help 查看可用命令"@
}

/// The reply to a command that the sender may not run.
pub open spec fn denied_text(p: Permission) -> Seq<char> {
    "⛔ 权限不足: 需要 "@ + display_name_spec(p)
}

/// What to do with a message.
pub enum Route<'a, H> {
    /// Not a command: nothing to do.
    Ignore,
    /// The built-in `help` command: send this text.
    Help(String),
    /// No handler has this name: send this text.
    Unknown(String),
    /// Run this handler, once its permission is granted.
    Execute { handler: &'a H, info: &'a CommandInfo, command: ParsedCommand },
    /// The sender may not run the command: send this refusal, run nothing.
    Denied(String),
}

/// Routes command messages to the registered handlers.
pub struct CommandGateway<H> {
    parser: Parser,
    registry: CommandRegistry<H>,
    bot_owners: Vec<String>,
}

impl<H> CommandGateway<H> {
    /// The command parser.
    pub closed spec fn parser_spec(&self) -> Parser {
        self.parser
    }

    /// The registered commands, in order of name.
    pub closed spec fn entries(&self) -> Seq<(CommandInfoView, H)> {
        self.registry@
    }

    /// The bot owners.
    pub closed spec fn owners(&self) -> Seq<Seq<char>> {
        string_views(self.bot_owners@)
    }

    /// A gateway for commands that begin with `prefix`, without handlers.
    pub fn new(prefix: String, bot_owners: Vec<String>) -> (g: CommandGateway<H>)
        ensures
            g.parser_spec().prefix() == prefix@,
            g.entries() == Seq::<(CommandInfoView, H)>::empty(),
            sorted_names(g.entries()),
            g.owners() == string_views(bot_owners@),
    {
        CommandGateway { parser: Parser::new(prefix), registry: CommandRegistry::new(), bot_owners }
    }

    /// Registers a command handler, replacing one of the same name.
    pub fn register(&mut self, info: CommandInfo, handler: H)
        ensures
            final(self).entries() == register_spec(old(self).entries(), (info@, handler)),
            sorted_names(final(self).entries()),
            final(self).parser_spec() == old(self).parser_spec(),
            final(self).owners() == old(self).owners(),
    {
        self.registry.register(info, handler);
    }

    /// The command parser.
    pub fn parser(&self) -> (r: &Parser)
        ensures
            *r == self.parser_spec(),
    {
        &self.parser
    }

    /// The command parser, to change it.
    pub fn parser_mut(&mut self) -> (r: &mut Parser)
        ensures
            *r == old(self).parser_spec(),
            final(self).parser_spec() == *final(r),
            final(self).entries() == old(self).entries(),
            final(self).owners() == old(self).owners(),
    {
        &mut self.parser
    }

    /// Whether `msg` begins with the command prefix.
    pub fn is_command(&self, msg: &str) -> (b: bool)
        ensures
            b == crate::text::is_prefix(self.parser_spec().prefix(), msg@),
    {
        self.parser.is_command(msg)
    }

    /// The registered commands are in order of name.
    pub fn entries_sorted(&self)
        ensures
            sorted_names(self.entries()),
    {
        self.registry.entries_sorted();
    }

    /// What to do with `msg`: nothing when it is no command; the help text for
    /// `help`; the unknown-command reply when no handler has the name; else the
    /// handler to run.
    pub fn dispatch(&self, msg: &str) -> (r: Route<'_, H>)
        ensures
            match r {
                Route::Ignore => parse_spec(self.parser_spec().prefix(), msg@) is None,
                Route::Help(t) => {
                    &&& parse_spec(self.parser_spec().prefix(), msg@) matches Some(c) && c.cmd == "help"@
                    &&& t@ == help_text(self.entries())
                },
                Route::Unknown(t) => {
                    &&& parse_spec(self.parser_spec().prefix(), msg@) matches Some(c)
                        && c.cmd != "help"@
                        && lookup(self.entries(), c.cmd) is None
                        && t@ == unknown_text(c.cmd)
                },
                Route::Execute { handler, info, command } => {
                    &&& parse_spec(self.parser_spec().prefix(), msg@) == Some(command@)
                    &&& command@.cmd != "help"@
                    &&& lookup(self.entries(), command@.cmd) == Some((info@, *handler))
                },
                Route::Denied(_) => false,
            },
    {
        let parsed = match self.parser.parse(msg) {
            Some(p) => p,
            None => return Route::Ignore,
        };
        if str_eq(parsed.cmd.as_str(), "help") {
            return Route::Help(self.registry.generate_help());
        }
        match self.registry.get_entry(parsed.cmd.as_str()) {
            Some((info, handler)) => Route::Execute { handler, info, command: parsed },
            None => {
                let mut t = "未知命令: ".to_owned();
                t.append(parsed.cmd.as_str());
                t.append("\n\n使用 !help 查看可用命令");
                Route::Unknown(t)
            },
        }
    }

    /// What to do with `msg` from `sender`, in a room that is a direct chat or
    /// not, where the sender has `power_level`: as `dispatch` routes it, except
    /// that a command whose permission the sender does not hold is refused
    /// with `denied_text` of that permission and its handler is not run.
    pub fn dispatch_from(&self, msg: &str, sender: &str, is_direct: bool, power_level: i64) -> (r: Route<'_, H>)
        ensures
            match parse_spec(self.parser_spec().prefix(), msg@) {
                None => r is Ignore,
                Some(c) => if c.cmd == "help"@ {
                    r matches Route::Help(t) && t@ == help_text(self.entries())
                } else {
                    match lookup(self.entries(), c.cmd) {
                        None => r matches Route::Unknown(t) && t@ == unknown_text(c.cmd),
                        Some((info, h)) => if grants_spec(info.permission, sender@, self.owners(), is_direct, power_level as int) {
                            r matches Route::Execute { handler, info: i, command }
                                && *handler == h && i@ == info && command@ == c
                        } else {
                            r matches Route::Denied(t) && t@ == denied_text(info.permission)
                        },
                    }
                },
            },
    {
        match self.dispatch(msg) {
            Route::Execute { handler, info, command } => {
                match self.authorize(info.permission, sender, is_direct, power_level) {
                    None => Route::Execute { handler, info, command },
                    Some(t) => Route::Denied(t),
                }
            },
            other => other,
        }
    }

    /// `None` when `sender` holds `permission`, else the refusal to send.
    pub fn authorize(&self, permission: Permission, sender: &str, is_direct: bool, power_level: i64) -> (r: Option<String>)
        ensures
            r is None <==> grants_spec(permission, sender@, self.owners(), is_direct, power_level as int),
            r matches Some(t) ==> t@ == denied_text(permission),
    {
        if permission.check(sender, self.bot_owners.as_slice(), is_direct, power_level) {
            None
        } else {
            let mut t = "⛔ 权限不足: 需要 ".to_owned();
            t.append(permission.display_name());
            Some(t)
        }
    }
}

} // verus!
