//! The context in which a command runs.

use vstd::prelude::*;
use crate::command::permission::string_views;
use crate::text::{join, join_strings};

verus! {

/// The context of a command: where it was sent, by whom, and its words.
pub struct CommandContext {
    /// The room the command was sent in.
    pub room_id: String,
    /// The sender.
    pub sender: String,
    /// The command name.
    pub cmd: String,
    /// The arguments; the first one may name a sub-command.
    pub args: Vec<String>,
    /// The whole message.
    pub raw_msg: String,
    /// The id of the message event.
    pub event_id: String,
}

/// The arguments after the sub-command: all but the first, or none when there
/// is at most one.
pub open spec fn sub_args_spec(args: Seq<Seq<char>>) -> Seq<Seq<char>> {
    if args.len() > 1 {
        args.skip(1)
    } else {
        Seq::empty()
    }
}

impl CommandContext {
    pub fn new(
        room_id: String,
        sender: String,
        cmd: String,
        args: Vec<String>,
        raw_msg: String,
        event_id: String,
    ) -> (c: CommandContext)
        ensures
            c.room_id@ == room_id@,
            c.sender@ == sender@,
            c.cmd@ == cmd@,
            string_views(c.args@) == string_views(args@),
            c.raw_msg@ == raw_msg@,
            c.event_id@ == event_id@,
    {
        CommandContext { room_id, sender, cmd, args, raw_msg, event_id }
    }

    /// The id of the room.
    pub fn room_id(&self) -> (r: &str)
        ensures
            r@ == self.room_id@,
    {
        self.room_id.as_str()
    }

    /// The first argument, if any.
    pub fn first_arg(&self) -> (r: Option<&str>)
        ensures
            match r {
                Some(a) => self.args@.len() > 0 && a@ == self.args@[0]@,
                None => self.args@.len() == 0,
            },
    {
        if self.args.len() > 0 {
            Some(self.args[0].as_str())
        } else {
            None
        }
    }

    /// The sub-command: the first argument, if any.
    pub fn sub_command(&self) -> (r: Option<&str>)
        ensures
            match r {
                Some(a) => self.args@.len() > 0 && a@ == self.args@[0]@,
                None => self.args@.len() == 0,
            },
    {
        self.first_arg()
    }

    /// The arguments after the sub-command.
    pub fn sub_args(&self) -> (r: &[String])
        ensures
            string_views(r@) == sub_args_spec(string_views(self.args@)),
    {
        let all = self.args.as_slice();
        if all.len() > 1 {
            let (_, rest) = all.split_at(1);
            assert(string_views(rest@) =~= string_views(self.args@).skip(1));
            rest
        } else {
            let (_, rest) = all.split_at(all.len());
            assert(string_views(rest@) =~= Seq::<Seq<char>>::empty());
            rest
        }
    }

    /// The arguments joined by single spaces.
    pub fn args_joined(&self) -> (r: String)
        ensures
            r@ == join(string_views(self.args@), " "@),
    {
        join_strings(self.args.as_slice(), " ")
    }
}

} // verus!
