//! The decisions taken on room events: which invitations to accept, which
//! messages to answer and how, and when a streamed reply is shown.

use vstd::prelude::*;
use crate::text::{
    chars_of, contains, contains_seq, is_prefix, remove_all, remove_occurrences, starts_with, str_eq,
    trim, trim_str,
};

verus! {

/// `text` without a leading `prefix`.
pub open spec fn strip_prefix(text: Seq<char>, prefix: Seq<char>) -> Seq<char> {
    if is_prefix(prefix, text) {
        text.skip(prefix.len() as int)
    } else {
        text
    }
}

/// The text of a message for the model: without the command prefix, without
/// mentions of the bot, trimmed.
pub open spec fn extract_spec(text: Seq<char>, prefix: Seq<char>, bot: Seq<char>) -> Seq<char> {
    trim(remove_all(strip_prefix(text, prefix), bot))
}

/// A message as a built-in command would be written: mentions of the bot
/// removed, trimmed, the command prefix kept.
pub open spec fn command_text_spec(text: Seq<char>, bot: Seq<char>) -> Seq<char> {
    trim(remove_all(text, bot))
}

/// The help text of the chat commands.
pub open spec fn chat_help_text(prefix: Seq<char>) -> Seq<char> {
    "可用命令:\n"@ + prefix + " <消息> - 与 AI 对话\n!reset - 清除会话历史\n!help - 显示帮助"@
}

/// The reply when the model cannot be reached.
pub open spec fn unavailable_text(err: Seq<char>) -> Seq<char> {
    "AI 服务暂时不可用: "@ + err
}

/// What to do with a room message.
pub enum MessageAction {
    /// Nothing.
    Ignore,
    /// Drop the history of the session and send the reply.
    Reset { session_id: String, reply: String },
    /// Send the help text.
    Help { reply: String },
    /// Ask the model, streaming the reply or not.
    Chat { session_id: String, prompt: String, streaming: bool },
}

/// How the bot treats room events.
pub struct EventHandler {
    pub bot_user_id: String,
    pub command_prefix: String,
    pub streaming_enabled: bool,
    pub streaming_min_interval_ms: u64,
    pub streaming_min_chars: usize,
}

/// Whether a message is addressed to the bot: always in a direct chat, else when
/// it begins with the prefix, names the bot, or mentions it.
pub open spec fn should_respond_spec(
    text: Seq<char>,
    prefix: Seq<char>,
    bot: Seq<char>,
    is_direct: bool,
    mentions_bot: bool,
) -> bool {
    is_direct || is_prefix(prefix, text) || contains_seq(text, bot) || mentions_bot
}

impl EventHandler {
    pub fn new(
        bot_user_id: String,
        command_prefix: String,
        streaming_enabled: bool,
        streaming_min_interval_ms: u64,
        streaming_min_chars: usize,
    ) -> (h: EventHandler)
        ensures
            h.bot_user_id@ == bot_user_id@,
            h.command_prefix@ == command_prefix@,
            h.streaming_enabled == streaming_enabled,
            h.streaming_min_interval_ms == streaming_min_interval_ms,
            h.streaming_min_chars == streaming_min_chars,
    {
        EventHandler { bot_user_id, command_prefix, streaming_enabled, streaming_min_interval_ms, streaming_min_chars }
    }

    /// Whether to accept a room membership event: only an invitation of the
    /// bot itself.
    pub fn handle_invite(is_invite: bool, invitee: &str, own_user_id: &str) -> (b: bool)
        ensures
            b == (is_invite && invitee@ == own_user_id@),
    {
        is_invite && str_eq(invitee, own_user_id)
    }

    /// The text of a message for the model.
    pub fn extract_message(&self, text: &str) -> (r: String)
        ensures
            r@ == extract_spec(text@, self.command_prefix@, self.bot_user_id@),
    {
        let stripped = if starts_with(text, self.command_prefix.as_str()) {
            let v = chars_of(text);
            let n = chars_of(self.command_prefix.as_str()).len();
            crate::text::string_from_chars(&v, n, v.len())
        } else {
            text.to_owned()
        };
        proof {
            if is_prefix(self.command_prefix@, text@) {
                assert(text@.subrange(self.command_prefix@.len() as int, text@.len() as int) =~= text@.skip(self.command_prefix@.len() as int));
            }
        }
        let removed = remove_occurrences(stripped.as_str(), self.bot_user_id.as_str());
        trim_str(removed.as_str())
    }

    /// Whether a message is addressed to the bot.
    pub fn should_respond(&self, text: &str, is_direct: bool, mentions_bot: bool) -> (b: bool)
        ensures
            b == should_respond_spec(text@, self.command_prefix@, self.bot_user_id@, is_direct, mentions_bot),
    {
        is_direct || starts_with(text, self.command_prefix.as_str()) || contains(text, self.bot_user_id.as_str())
            || mentions_bot
    }

    /// The help text of the chat commands.
    pub fn help_text(&self) -> (r: String)
        ensures
            r@ == chat_help_text(self.command_prefix@),
    {
        let mut r = "可用命令:\n".to_owned();
        r.append(self.command_prefix.as_str());
        r.append(" <消息> - 与 AI 对话\n!reset - 清除会话历史\n!help - 显示帮助");
        r
    }

    /// What to do with a message from `sender` in room `room_id`: messages of
    /// the bot itself and messages not addressed to it are ignored. `!reset`
    /// drops the history of the chat's session and `!help` answers with the
    /// help text, whether they are written as they stand (with mentions of the
    /// bot removed) or after the command prefix. Anything else goes to the
    /// model, in a session per user in a direct chat and per room elsewhere.
    pub fn handle_message(&self, sender: &str, room_id: &str, text: &str, is_direct: bool, mentions_bot: bool) -> (a: MessageAction)
        ensures
            sender@ == self.bot_user_id@ ==> a is Ignore,
            sender@ != self.bot_user_id@ && !should_respond_spec(text@, self.command_prefix@, self.bot_user_id@, is_direct, mentions_bot)
                ==> a is Ignore,
            sender@ != self.bot_user_id@ && should_respond_spec(text@, self.command_prefix@, self.bot_user_id@, is_direct, mentions_bot)
                ==> {
                    let clean = extract_spec(text@, self.command_prefix@, self.bot_user_id@);
                    let whole = command_text_spec(text@, self.bot_user_id@);
                    let session = if is_direct { sender@ } else { room_id@ };
                    if whole == "!reset"@ || clean == "!reset"@ {
                        a matches MessageAction::Reset { session_id, reply }
                            && session_id@ == session && reply@ == "会话历史已清除"@
                    } else if whole == "!help"@ || clean == "!help"@ {
                        a matches MessageAction::Help { reply } && reply@ == chat_help_text(self.command_prefix@)
                    } else {
                        a matches MessageAction::Chat { session_id, prompt, streaming }
                            && session_id@ == session
                            && prompt@ == clean
                            && streaming == self.streaming_enabled
                    }
                },
    {
        if str_eq(sender, self.bot_user_id.as_str()) {
            return MessageAction::Ignore;
        }
        if !self.should_respond(text, is_direct, mentions_bot) {
            return MessageAction::Ignore;
        }
        let clean = self.extract_message(text);
        let whole = trim_str(remove_occurrences(text, self.bot_user_id.as_str()).as_str());
        let session_id = if is_direct { sender.to_owned() } else { room_id.to_owned() };
        if str_eq(whole.as_str(), "!reset") || str_eq(clean.as_str(), "!reset") {
            return MessageAction::Reset { session_id, reply: "会话历史已清除".to_owned() };
        }
        if str_eq(whole.as_str(), "!help") || str_eq(clean.as_str(), "!help") {
            return MessageAction::Help { reply: self.help_text() };
        }
        MessageAction::Chat { session_id, prompt: clean, streaming: self.streaming_enabled }
    }
}

/// The reply when the model cannot be reached.
pub fn unavailable_message(err: &str) -> (r: String)
    ensures
        r@ == unavailable_text(err@),
{
    let mut r = "AI 服务暂时不可用: ".to_owned();
    r.append(err);
    r
}

/// A message to show a streamed reply: sent anew, or replacing the one sent
/// before.
pub struct StreamEdit {
    pub text: String,
    pub replace: bool,
}

/// When a streamed reply is shown: the reply is sent once, then edited in place
/// whenever the interval has passed or enough characters came in.
pub struct StreamPublisher {
    /// Whether the reply message was sent.
    pub event_sent: bool,
    /// The characters that came in since the reply was last shown.
    pub chars_since_update: usize,
    /// How many new characters make the reply shown again.
    pub min_chars: usize,
}

impl StreamPublisher {
    pub fn new(min_chars: usize) -> (p: StreamPublisher)
        ensures
            !p.event_sent,
            p.chars_since_update == 0,
            p.min_chars == min_chars,
    {
        StreamPublisher { event_sent: false, chars_since_update: 0, min_chars }
    }

    /// Takes in a piece of the reply; `content` is the reply so far. The reply
    /// is shown when the interval has passed or at least `min_chars` characters
    /// came in since it was last shown.
    pub fn on_delta(&mut self, delta: &str, content: &str, interval_elapsed: bool) -> (r: Option<StreamEdit>)
        requires
            old(self).chars_since_update + delta@.len() <= usize::MAX,
        ensures
            final(self).min_chars == old(self).min_chars,
            ({
                let count = old(self).chars_since_update + delta@.len();
                if publishes(old(self).chars_since_update as nat, old(self).min_chars as nat, delta@.len(), interval_elapsed) {
                    &&& r matches Some(e) && e.text@ == content@ && e.replace == old(self).event_sent
                    &&& final(self).event_sent
                    &&& final(self).chars_since_update == 0
                } else {
                    &&& r is None
                    &&& final(self).event_sent == old(self).event_sent
                    &&& final(self).chars_since_update == count
                }
            }),
    {
        let n = chars_of(delta).len();
        self.chars_since_update = self.chars_since_update + n;
        if interval_elapsed || self.chars_since_update >= self.min_chars {
            let replace = self.event_sent;
            self.event_sent = true;
            self.chars_since_update = 0;
            Some(StreamEdit { text: content.to_owned(), replace })
        } else {
            None
        }
    }

    /// The message for a failed stream: the reply so far with the error, or the
    /// unavailability notice when nothing came in.
    pub fn on_error(&self, content: &str, err: &str) -> (r: StreamEdit)
        ensures
            content@.len() > 0 ==> r.text@ == content@ + "\n\n[错误: "@ + err@ + "]"@ && r.replace == self.event_sent,
            content@.len() == 0 ==> r.text@ == unavailable_text(err@) && !r.replace,
    {
        if !content.is_empty() {
            let mut t = content.to_owned();
            t.append("\n\n[错误: ");
            t.append(err);
            t.append("]");
            StreamEdit { text: t, replace: self.event_sent }
        } else {
            StreamEdit { text: unavailable_message(err), replace: false }
        }
    }

    /// The last showing when the stream ends: the whole reply, when it is not
    /// empty; it replaces the message sent before, or is sent anew when none
    /// was, so that a reply too short to have been shown still reaches the
    /// room.
    pub fn on_finish(&self, content: &str) -> (r: Option<StreamEdit>)
        ensures
            content@.len() > 0 ==> (r matches Some(e) && e.text@ == content@ && e.replace == self.event_sent),
            content@.len() == 0 ==> r is None,
    {
        if !content.is_empty() {
            Some(StreamEdit { text: content.to_owned(), replace: self.event_sent })
        } else {
            None
        }
    }
}

/// Whether a piece of `delta_len` characters makes the reply shown, after
/// `count` characters came in unshown.
pub open spec fn publishes(count: nat, min_chars: nat, delta_len: nat, interval_elapsed: bool) -> bool {
    interval_elapsed || count + delta_len >= min_chars
}

/// How many times a stream of pieces (their lengths, and whether the interval
/// had passed) sends the reply as a new message rather than an edit.
pub open spec fn new_messages(sent: bool, count: nat, min_chars: nat, steps: Seq<(nat, bool)>) -> nat
    decreases steps.len(),
{
    if steps.len() == 0 {
        0
    } else if publishes(count, min_chars, steps[0].0, steps[0].1) {
        (if sent { 0nat } else { 1nat }) + new_messages(true, 0, min_chars, steps.skip(1))
    } else {
        new_messages(sent, count + steps[0].0, min_chars, steps.skip(1))
    }
}

/// A streamed reply is sent as a new message at most once; every later showing
/// edits that message.
pub proof fn law_stream_sent_once(sent: bool, count: nat, min_chars: nat, steps: Seq<(nat, bool)>)
    ensures
        new_messages(sent, count, min_chars, steps) <= (if sent { 0nat } else { 1nat }),
    decreases steps.len(),
{
    if steps.len() > 0 {
        if publishes(count, min_chars, steps[0].0, steps[0].1) {
            law_stream_sent_once(true, 0, min_chars, steps.skip(1));
        } else {
            law_stream_sent_once(sent, count + steps[0].0, min_chars, steps.skip(1));
        }
    }
}

} // verus!
