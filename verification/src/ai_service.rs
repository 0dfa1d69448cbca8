//! The parts of a chat turn with the model that do not talk to the network:
//! what is sent, what is kept of the reply, and how a streamed reply
//! accumulates.

use vstd::prelude::*;
use crate::conversation::{ChatMessage, ConversationManager, views};

verus! {

/// The content of a streamed reply so far.
pub struct StreamingState {
    pub accumulated: String,
}

/// What one chunk of a streamed reply amounts to.
pub enum ChunkOutcome {
    /// A piece of the reply, to be passed on.
    Delta(String),
    /// The reply is complete: this whole content is to be kept in the history.
    Completed(String),
    /// Nothing.
    Skip,
}

/// The reply after taking in a chunk with the piece `delta`, if it has one.
pub open spec fn chunk_step(acc: Seq<char>, delta: Option<Seq<char>>) -> Seq<char> {
    match delta {
        Some(d) => acc + d,
        None => acc,
    }
}

/// The reply after taking in, in order, chunks with the pieces `deltas`.
pub open spec fn absorb_all(acc: Seq<char>, deltas: Seq<Option<Seq<char>>>) -> Seq<char>
    decreases deltas.len(),
{
    if deltas.len() == 0 {
        acc
    } else {
        absorb_all(chunk_step(acc, deltas[0]), deltas.skip(1))
    }
}

/// The pieces that chunks pass on, one after the other.
pub open spec fn passed_on(deltas: Seq<Option<Seq<char>>>) -> Seq<char>
    decreases deltas.len(),
{
    if deltas.len() == 0 {
        Seq::empty()
    } else {
        (match deltas[0] {
            Some(d) => d,
            None => Seq::empty(),
        }) + passed_on(deltas.skip(1))
    }
}

proof fn lemma_absorb_all(acc: Seq<char>, deltas: Seq<Option<Seq<char>>>)
    ensures
        absorb_all(acc, deltas) == acc + passed_on(deltas),
    decreases deltas.len(),
{
    if deltas.len() == 0 {
        assert(acc + Seq::<char>::empty() =~= acc);
    } else {
        lemma_absorb_all(chunk_step(acc, deltas[0]), deltas.skip(1));
        match deltas[0] {
            Some(d) => {
                assert(acc + d + passed_on(deltas.skip(1)) =~= acc + (d + passed_on(deltas.skip(1))));
            },
            None => {
                assert(Seq::<char>::empty() + passed_on(deltas.skip(1)) =~= passed_on(deltas.skip(1)));
            },
        }
    }
}

/// Over a whole stream, the reply is what it held before followed by every
/// piece passed on, in the order they came; chunks without a piece change
/// nothing. From a new state, the reply that completes the stream is exactly
/// the pieces passed on.
pub proof fn law_stream_reply_is_its_pieces(acc: Seq<char>, deltas: Seq<Option<Seq<char>>>)
    ensures
        absorb_all(acc, deltas) == acc + passed_on(deltas),
        absorb_all(Seq::empty(), deltas) == passed_on(deltas),
{
    lemma_absorb_all(acc, deltas);
    lemma_absorb_all(Seq::empty(), deltas);
    assert(Seq::<char>::empty() + passed_on(deltas) =~= passed_on(deltas));
}

impl StreamingState {
    /// An empty reply.
    pub fn new() -> (s: StreamingState)
        ensures
            s.accumulated@ == Seq::<char>::empty(),
    {
        StreamingState { accumulated: String::new() }
    }

    /// Appends a piece to the reply.
    pub fn append(&mut self, delta: &str)
        ensures
            final(self).accumulated@ == old(self).accumulated@ + delta@,
    {
        self.accumulated.append(delta);
    }

    /// The reply so far.
    pub fn content(&self) -> (r: &str)
        ensures
            r@ == self.accumulated@,
    {
        self.accumulated.as_str()
    }

    /// Takes in one chunk of the stream: a chunk with content adds it to the
    /// reply and passes it on; a chunk without content that ends the stream
    /// completes the reply; any other chunk is skipped.
    pub fn absorb_chunk(&mut self, delta: Option<&str>, finished: bool) -> (o: ChunkOutcome)
        ensures
            final(self).accumulated@ == chunk_step(
                old(self).accumulated@,
                match delta { Some(d) => Some(d@), None => None },
            ),
            match delta {
                Some(d) => {
                    &&& final(self).accumulated@ == old(self).accumulated@ + d@
                    &&& o matches ChunkOutcome::Delta(x) && x@ == d@
                },
                None => {
                    &&& final(self).accumulated@ == old(self).accumulated@
                    &&& finished ==> (o matches ChunkOutcome::Completed(c) && c@ == old(self).accumulated@)
                    &&& !finished ==> o is Skip
                },
            },
    {
        match delta {
            Some(d) => {
                self.append(d);
                ChunkOutcome::Delta(d.to_owned())
            },
            None => {
                if finished {
                    ChunkOutcome::Completed(self.accumulated.clone())
                } else {
                    ChunkOutcome::Skip
                }
            },
        }
    }
}

/// Starts a chat turn: records the user's prompt in the session and returns the
/// messages to send, under `system_prompt` in place of the configured one when
/// it is given.
pub fn begin_chat(
    conv: &mut ConversationManager,
    session_id: &str,
    prompt: &str,
    system_prompt: Option<&str>,
) -> (r: Vec<ChatMessage>)
    ensures
        final(conv)@ == old(conv)@.with_user_message(session_id@, prompt@),
        views(r@) == match system_prompt {
            Some(sp) => final(conv)@.messages_with_system(session_id@, sp@),
            None => final(conv)@.messages(session_id@),
        },
{
    conv.add_user_message(session_id, prompt);
    match system_prompt {
        Some(sp) => conv.get_messages_with_system(session_id, sp),
        None => conv.get_messages(session_id),
    }
}

/// Ends a chat turn: the reply is the model's content, or empty when it gave
/// none, and it is recorded as the assistant's message.
pub fn finish_chat(conv: &mut ConversationManager, session_id: &str, reply: Option<String>) -> (r: String)
    ensures
        r@ == match reply {
            Some(s) => s@,
            None => Seq::<char>::empty(),
        },
        final(conv)@ == old(conv)@.with_assistant_message(session_id@, r@),
{
    let content = match reply {
        Some(s) => s,
        None => String::new(),
    };
    conv.add_assistant_message(session_id, content.as_str());
    content
}

/// Takes in one chunk of the streamed reply of `session_id`, as
/// `absorb_chunk` does: a piece is added to the reply and returned to be
/// passed on; a chunk without a piece that ends the stream records the whole
/// reply as the assistant's message of the session; any other chunk changes
/// nothing.
pub fn take_chunk(
    state: &mut StreamingState,
    conv: &mut ConversationManager,
    session_id: &str,
    delta: Option<&str>,
    finished: bool,
) -> (r: Option<String>)
    ensures
        final(state).accumulated@ == chunk_step(
            old(state).accumulated@,
            match delta { Some(d) => Some(d@), None => None },
        ),
        match delta {
            Some(d) => {
                &&& r matches Some(x) && x@ == d@
                &&& final(conv)@ == old(conv)@
            },
            None => {
                &&& r is None
                &&& final(conv)@ == if finished {
                    old(conv)@.with_assistant_message(session_id@, old(state).accumulated@)
                } else {
                    old(conv)@
                }
            },
        },
{
    match state.absorb_chunk(delta, finished) {
        ChunkOutcome::Delta(d) => Some(d),
        ChunkOutcome::Completed(content) => {
            conv.add_assistant_message(session_id, content.as_str());
            None
        },
        ChunkOutcome::Skip => None,
    }
}

/// The error passed on for a chunk that the model's API failed to deliver.
pub fn stream_error_message(err: &str) -> (r: String)
    ensures
        r@ == "流式响应错误: "@ + err@,
{
    let mut r = "流式响应错误: ".to_owned();
    r.append(err);
    r
}

} // verus!
