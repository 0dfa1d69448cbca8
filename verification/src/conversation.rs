//! Per-session chat histories with a bounded length.

use vstd::prelude::*;
use crate::text::str_eq;

verus! {

/// Who wrote a message of a conversation.
#[derive(Debug, Clone, Copy, PartialEq, Eq, Structural)]
pub enum Role {
    System,
    User,
    Assistant,
}

/// One message of a conversation, as it is sent to the chat model.
pub struct ChatMessage {
    pub role: Role,
    pub content: String,
}

/// The mathematical value of a `ChatMessage`.
pub struct ChatMessageView {
    pub role: Role,
    pub content: Seq<char>,
}

impl View for ChatMessage {
    type V = ChatMessageView;

    open spec fn view(&self) -> ChatMessageView {
        ChatMessageView { role: self.role, content: self.content@ }
    }
}

pub open spec fn message_view(role: Role, content: Seq<char>) -> ChatMessageView {
    ChatMessageView { role, content }
}

/// The views of a sequence of messages.
pub open spec fn views(v: Seq<ChatMessage>) -> Seq<ChatMessageView> {
    v.map_values(|m: ChatMessage| m@)
}

impl ChatMessage {
    pub fn new(role: Role, content: &str) -> (m: ChatMessage)
        ensures
            m@ == message_view(role, content@),
    {
        ChatMessage { role, content: content.to_owned() }
    }

    /// A copy of this message.
    pub fn duplicate(&self) -> (m: ChatMessage)
        ensures
            m@ == self@,
    {
        ChatMessage { role: self.role, content: self.content.clone() }
    }
}

/// The last `n` elements of `h`, or all of `h` when it is shorter.
pub open spec fn keep_last(h: Seq<ChatMessageView>, n: nat) -> Seq<ChatMessageView> {
    if h.len() > n {
        h.subrange(h.len() - n, h.len() as int)
    } else {
        h
    }
}

/// The mathematical value of a `ConversationManager`.
pub struct ConversationView {
    pub sessions: Map<Seq<char>, Seq<ChatMessageView>>,
    pub system_prompt: Option<Seq<char>>,
    pub max_history: nat,
}

impl ConversationView {
    /// The stored history of `session`; empty for an unknown session.
    pub open spec fn history(self, session: Seq<char>) -> Seq<ChatMessageView> {
        if self.sessions.dom().contains(session) {
            self.sessions[session]
        } else {
            Seq::empty()
        }
    }

    /// The state after a user message: the session is created if needed, the
    /// message appended, and the history cut to its last `2 * max_history` messages.
    pub open spec fn with_user_message(self, session: Seq<char>, content: Seq<char>) -> ConversationView {
        ConversationView {
            sessions: self.sessions.insert(
                session,
                keep_last(
                    self.history(session).push(message_view(Role::User, content)),
                    2 * self.max_history,
                ),
            ),
            ..self
        }
    }

    /// The state after an assistant message: appended to an existing session,
    /// without any cut; nothing changes for an unknown session.
    pub open spec fn with_assistant_message(self, session: Seq<char>, content: Seq<char>) -> ConversationView {
        if self.sessions.dom().contains(session) {
            ConversationView {
                sessions: self.sessions.insert(
                    session,
                    self.sessions[session].push(message_view(Role::Assistant, content)),
                ),
                ..self
            }
        } else {
            self
        }
    }

    /// The state after the history of `session` is dropped.
    pub open spec fn without_session(self, session: Seq<char>) -> ConversationView {
        ConversationView { sessions: self.sessions.remove(session), ..self }
    }

    /// The messages sent for `session`: the configured system prompt, if any,
    /// then the history.
    pub open spec fn messages(self, session: Seq<char>) -> Seq<ChatMessageView> {
        match self.system_prompt {
            Some(p) => seq![message_view(Role::System, p)] + self.history(session),
            None => self.history(session),
        }
    }

    /// The messages sent for `session` with `prompt` in place of the configured
    /// system prompt.
    pub open spec fn messages_with_system(self, session: Seq<char>, prompt: Seq<char>) -> Seq<ChatMessageView> {
        seq![message_view(Role::System, prompt)] + self.history(session)
    }
}

struct Session {
    id: String,
    history: Vec<ChatMessage>,
}

spec fn has_id(ss: Seq<Session>, k: Seq<char>) -> bool {
    exists|i: int| 0 <= i < ss.len() && ss[i].id@ == k
}

spec fn index_of(ss: Seq<Session>, k: Seq<char>) -> int {
    choose|i: int| 0 <= i < ss.len() && ss[i].id@ == k
}

spec fn session_map(ss: Seq<Session>) -> Map<Seq<char>, Seq<ChatMessageView>> {
    Map::new(|k: Seq<char>| has_id(ss, k), |k: Seq<char>| views(ss[index_of(ss, k)].history@))
}

spec fn distinct_ids(ss: Seq<Session>) -> bool {
    forall|i: int, j: int| 0 <= i < ss.len() && 0 <= j < ss.len() && i != j ==> ss[i].id@ != ss[j].id@
}

/// No message of `h` is a system message.
pub open spec fn no_system(h: Seq<ChatMessageView>) -> bool {
    forall|j: int| 0 <= j < h.len() ==> (#[trigger] h[j]).role != Role::System
}

/// Every stored history holds only user and assistant messages.
spec fn roles_ok(ss: Seq<Session>) -> bool {
    forall|i: int| 0 <= i < ss.len() ==> no_system(views(#[trigger] ss[i].history@))
}

proof fn lemma_roles_update(ss: Seq<Session>, i: int, s: Session)
    requires
        roles_ok(ss),
        0 <= i < ss.len(),
        no_system(views(s.history@)),
    ensures
        roles_ok(ss.update(i, s)),
{
    let t = ss.update(i, s);
    assert forall|k: int| 0 <= k < t.len() implies no_system(views(#[trigger] t[k].history@)) by {
        if k != i {
            assert(t[k] == ss[k]);
        }
    }
}

proof fn lemma_roles_push(ss: Seq<Session>, s: Session)
    requires
        roles_ok(ss),
        no_system(views(s.history@)),
    ensures
        roles_ok(ss.push(s)),
{
    let t = ss.push(s);
    assert forall|k: int| 0 <= k < t.len() implies no_system(views(#[trigger] t[k].history@)) by {
        if k < ss.len() {
            assert(t[k] == ss[k]);
        }
    }
}

proof fn lemma_roles_remove(ss: Seq<Session>, i: int)
    requires
        roles_ok(ss),
        0 <= i < ss.len(),
    ensures
        roles_ok(ss.remove(i)),
{
    let t = ss.remove(i);
    assert forall|k: int| 0 <= k < t.len() implies no_system(views(#[trigger] t[k].history@)) by {
        if k < i {
            assert(t[k] == ss[k]);
        } else {
            assert(t[k] == ss[k + 1]);
        }
    }
}

proof fn lemma_map_update(ss: Seq<Session>, i: int, s: Session)
    requires
        distinct_ids(ss),
        0 <= i < ss.len(),
        s.id@ == ss[i].id@,
    ensures
        distinct_ids(ss.update(i, s)),
        session_map(ss.update(i, s)) == session_map(ss).insert(s.id@, views(s.history@)),
{
    let t = ss.update(i, s);
    assert forall|k: Seq<char>| has_id(t, k) == (has_id(ss, k) || k == s.id@) by {
        if has_id(ss, k) {
            let j = choose|j: int| 0 <= j < ss.len() && ss[j].id@ == k;
            if j == i {
                assert(t[i].id@ == k);
            } else {
                assert(t[j].id@ == k);
            }
        }
        if has_id(t, k) {
            let j = choose|j: int| 0 <= j < t.len() && t[j].id@ == k;
            assert(ss[j].id@ == k);
        }
        if k == s.id@ {
            assert(t[i].id@ == k);
        }
    }
    assert forall|k: Seq<char>| #[trigger] has_id(t, k) && k != s.id@ implies index_of(t, k) == index_of(ss, k) by {
        let a = index_of(t, k);
        let b = index_of(ss, k);
        assert(t[a].id@ == k);
        assert(ss[b].id@ == k);
        assert(a != i);
        assert(b != i);
    }
    assert(index_of(t, s.id@) == i) by {
        assert(t[i].id@ == s.id@);
    }
    assert(session_map(t) =~= session_map(ss).insert(s.id@, views(s.history@)));
}

proof fn lemma_map_push(ss: Seq<Session>, s: Session)
    requires
        distinct_ids(ss),
        !has_id(ss, s.id@),
    ensures
        distinct_ids(ss.push(s)),
        session_map(ss.push(s)) == session_map(ss).insert(s.id@, views(s.history@)),
{
    let t = ss.push(s);
    assert forall|i: int, j: int| 0 <= i < t.len() && 0 <= j < t.len() && i != j implies t[i].id@ != t[j].id@ by {
        if i == ss.len() {
            assert(ss[j].id@ == t[j].id@);
        } else if j == ss.len() {
            assert(ss[i].id@ == t[i].id@);
        }
    }
    assert forall|k: Seq<char>| has_id(t, k) == (has_id(ss, k) || k == s.id@) by {
        if has_id(ss, k) {
            let j = choose|j: int| 0 <= j < ss.len() && ss[j].id@ == k;
            assert(t[j].id@ == k);
        }
        if has_id(t, k) {
            let j = choose|j: int| 0 <= j < t.len() && t[j].id@ == k;
            if j < ss.len() {
                assert(ss[j].id@ == k);
            }
        }
        if k == s.id@ {
            assert(t[ss.len() as int].id@ == k);
        }
    }
    assert forall|k: Seq<char>| #[trigger] has_id(t, k) && k != s.id@ implies index_of(t, k) == index_of(ss, k) by {
        let a = index_of(t, k);
        let b = index_of(ss, k);
        assert(t[a].id@ == k);
        assert(ss[b].id@ == k);
        assert(t[b].id@ == k);
    }
    assert(index_of(t, s.id@) == ss.len()) by {
        assert(t[ss.len() as int].id@ == s.id@);
    }
    assert(session_map(t) =~= session_map(ss).insert(s.id@, views(s.history@)));
}

proof fn lemma_map_remove(ss: Seq<Session>, i: int)
    requires
        distinct_ids(ss),
        0 <= i < ss.len(),
    ensures
        distinct_ids(ss.remove(i)),
        session_map(ss.remove(i)) == session_map(ss).remove(ss[i].id@),
{
    let t = ss.remove(i);
    let key = ss[i].id@;
    assert forall|a: int, b: int| 0 <= a < t.len() && 0 <= b < t.len() && a != b implies t[a].id@ != t[b].id@ by {
        let a2 = if a < i { a } else { a + 1 };
        let b2 = if b < i { b } else { b + 1 };
        assert(t[a] == ss[a2]);
        assert(t[b] == ss[b2]);
    }
    assert forall|k: Seq<char>| has_id(t, k) == (has_id(ss, k) && k != key) by {
        if has_id(ss, k) && k != key {
            let j = choose|j: int| 0 <= j < ss.len() && ss[j].id@ == k;
            if j < i {
                assert(t[j].id@ == k);
            } else {
                assert(j != i);
                assert(t[j - 1].id@ == k);
            }
        }
        if has_id(t, k) {
            let j = choose|j: int| 0 <= j < t.len() && t[j].id@ == k;
            let j2 = if j < i { j } else { j + 1 };
            assert(ss[j2].id@ == k);
            assert(j2 != i);
        }
    }
    assert forall|k: Seq<char>| #[trigger] has_id(t, k) implies t[index_of(t, k)] == ss[index_of(ss, k)] by {
        let a = index_of(t, k);
        let b = index_of(ss, k);
        let a2 = if a < i { a } else { a + 1 };
        assert(t[a] == ss[a2]);
        assert(ss[a2].id@ == k);
        assert(ss[b].id@ == k);
    }
    assert(session_map(t) =~= session_map(ss).remove(key));
}

fn find_in(ss: &Vec<Session>, session_id: &str) -> (r: Option<usize>)
    ensures
        match r {
            Some(i) => i < ss@.len() && ss@[i as int].id@ == session_id@,
            None => !has_id(ss@, session_id@),
        },
{
    let mut i: usize = 0;
    while i < ss.len()
        invariant
            i <= ss@.len(),
            forall|j: int| 0 <= j < i ==> ss@[j].id@ != session_id@,
        decreases ss@.len() - i,
    {
        if str_eq(ss[i].id.as_str(), session_id) {
            return Some(i);
        }
        i = i + 1;
    }
    None
}

/// The chat histories of all sessions, keyed by session id.
pub struct ConversationManager {
    sessions: Vec<Session>,
    system_prompt: Option<String>,
    max_history: usize,
}

impl View for ConversationManager {
    type V = ConversationView;

    closed spec fn view(&self) -> ConversationView {
        ConversationView {
            sessions: session_map(self.sessions@),
            system_prompt: match self.system_prompt {
                Some(p) => Some(p@),
                None => None,
            },
            max_history: self.max_history as nat,
        }
    }
}

impl ConversationManager {
    #[verifier::type_invariant]
    spec fn well_formed(self) -> bool {
        &&& distinct_ids(self.sessions@)
        &&& roles_ok(self.sessions@)
        &&& 2 * self.max_history <= usize::MAX
    }

    /// A manager without sessions. Each session keeps at most `2 * max_history`
    /// messages after a user message.
    pub fn new(system_prompt: Option<String>, max_history: usize) -> (m: ConversationManager)
        requires
            2 * max_history <= usize::MAX,
        ensures
            m@.sessions == Map::<Seq<char>, Seq<ChatMessageView>>::empty(),
            m@.system_prompt == (match system_prompt {
                Some(p) => Some(p@),
                None => None::<Seq<char>>,
            }),
            m@.max_history == max_history,
    {
        let m = ConversationManager { sessions: Vec::new(), system_prompt, max_history };
        assert(session_map(m.sessions@) =~= Map::empty());
        m
    }

    /// Appends a user message to the session's history, creating the session if
    /// needed, and keeps only the last `2 * max_history` messages.
    pub fn add_user_message(&mut self, session_id: &str, content: &str)
        ensures
            final(self)@ == old(self)@.with_user_message(session_id@, content@),
    {
        proof { use_type_invariant(&*self); }
        let ghost old_map = session_map(self.sessions@);
        let mut ss: Vec<Session> = Vec::new();
        std::mem::swap(&mut ss, &mut self.sessions);
        let i = match find_in(&ss, session_id) {
            Some(i) => i,
            None => {
                let s = Session { id: session_id.to_owned(), history: Vec::new() };
                proof {
                    lemma_map_push(ss@, s);
                    assert(views(s.history@) =~= Seq::<ChatMessageView>::empty());
                    lemma_roles_push(ss@, s);
                }
                ss.push(s);
                assert(views(s.history@) =~= Seq::<ChatMessageView>::empty());
                ss.len() - 1
            },
        };
        let ghost mid_map = session_map(ss@);
        assert(mid_map == old_map.insert(session_id@, old(self)@.history(session_id@)));
        let ghost before = ss@;
        let mut s = ss.remove(i);
        let msg = ChatMessage::new(Role::User, content);
        s.history.push(msg);
        let limit = self.max_history * 2;
        if s.history.len() > limit {
            let cut = s.history.len() - limit;
            s.history = s.history.split_off(cut);
        }
        proof {
            let pushed = mid_map[session_id@].push(message_view(Role::User, content@));
            assert(has_id(before, session_id@));
            assert(index_of(before, session_id@) == i as int);
            assert(mid_map[session_id@] == views(before[i as int].history@));
            assert(views(s.history@) =~= keep_last(pushed, 2 * self.max_history as nat));
            assert(no_system(views(before[i as int].history@)));
            assert(no_system(pushed));
            assert(no_system(views(s.history@))) by {
                let h = views(s.history@);
                assert forall|j: int| 0 <= j < h.len() implies (#[trigger] h[j]).role != Role::System by {
                    if pushed.len() > 2 * self.max_history {
                        assert(h[j] == pushed[pushed.len() - 2 * self.max_history + j]);
                    } else {
                        assert(h[j] == pushed[j]);
                    }
                }
            }
            lemma_map_update(before, i as int, s);
            lemma_roles_update(before, i as int, s);
        }
        ss.insert(i, s);
        assert(ss@ =~= before.update(i as int, s));
        self.sessions = ss;
        assert(session_map(self.sessions@) =~= old_map.insert(
            session_id@,
            keep_last(old(self)@.history(session_id@).push(message_view(Role::User, content@)), 2 * self.max_history as nat),
        ));
    }

    /// Appends an assistant message to an existing session; a message for an
    /// unknown session is dropped.
    pub fn add_assistant_message(&mut self, session_id: &str, content: &str)
        ensures
            final(self)@ == old(self)@.with_assistant_message(session_id@, content@),
    {
        proof { use_type_invariant(&*self); }
        let mut ss: Vec<Session> = Vec::new();
        std::mem::swap(&mut ss, &mut self.sessions);
        match find_in(&ss, session_id) {
            Some(i) => {
                let ghost before = ss@;
                let mut s = ss.remove(i);
                s.history.push(ChatMessage::new(Role::Assistant, content));
                proof {
                    assert(has_id(before, session_id@));
                    assert(index_of(before, session_id@) == i as int);
                    assert(views(s.history@) =~= views(before[i as int].history@).push(message_view(Role::Assistant, content@)));
                    assert(no_system(views(before[i as int].history@)));
                    assert(no_system(views(s.history@)));
                    lemma_map_update(before, i as int, s);
                    lemma_roles_update(before, i as int, s);
                }
                ss.insert(i, s);
                assert(ss@ =~= before.update(i as int, s));
            },
            None => {},
        }
        self.sessions = ss;
    }

    fn history_copy(&self, session_id: &str, out: &mut Vec<ChatMessage>)
        ensures
            views(final(out)@) == views(old(out)@) + self@.history(session_id@),
            no_system(self@.history(session_id@)),
    {
        proof { use_type_invariant(self); }
        match find_in(&self.sessions, session_id) {
            Some(i) => {
                let h = &self.sessions[i].history;
                let ghost start = views(out@);
                let mut j: usize = 0;
                while j < h.len()
                    invariant
                        j <= h@.len(),
                        views(out@) == start + views(h@).take(j as int),
                    decreases h@.len() - j,
                {
                    let ghost prev = out@;
                    let m = h[j].duplicate();
                    out.push(m);
                    assert(views(out@) =~= views(prev).push(m@));
                    assert(views(h@).take(j + 1) =~= views(h@).take(j as int).push(h@[j as int]@));
                    assert(views(out@) =~= start + views(h@).take(j + 1));
                    j = j + 1;
                }
                assert(views(h@).take(j as int) =~= views(h@));
                assert(index_of(self.sessions@, session_id@) == i as int) by {
                    assert(has_id(self.sessions@, session_id@));
                }
                assert(no_system(views(self.sessions@[i as int].history@)));
            },
            None => {
                assert(views(out@) =~= views(out@) + Seq::<ChatMessageView>::empty());
                assert(self@.history(session_id@) =~= Seq::<ChatMessageView>::empty());
            },
        }
    }

    /// The messages for a session: the configured system prompt, if any, then
    /// the history.
    pub fn get_messages(&self, session_id: &str) -> (r: Vec<ChatMessage>)
        ensures
            views(r@) == self@.messages(session_id@),
            no_system(self@.history(session_id@)),
    {
        let mut r: Vec<ChatMessage> = Vec::new();
        match &self.system_prompt {
            Some(p) => {
                r.push(ChatMessage::new(Role::System, p.as_str()));
            },
            None => {},
        }
        assert(views(r@) =~= match self@.system_prompt {
            Some(p) => seq![message_view(Role::System, p)],
            None => Seq::<ChatMessageView>::empty(),
        });
        self.history_copy(session_id, &mut r);
        proof {
            if self@.system_prompt is None {
                assert(Seq::<ChatMessageView>::empty() + self@.history(session_id@) =~= self@.history(session_id@));
            }
        }
        r
    }

    /// The messages for a session with `system_prompt` in place of the
    /// configured one.
    pub fn get_messages_with_system(&self, session_id: &str, system_prompt: &str) -> (r: Vec<ChatMessage>)
        ensures
            views(r@) == self@.messages_with_system(session_id@, system_prompt@),
            r@.len() >= 1 && r@[0]@ == message_view(Role::System, system_prompt@),
            forall|i: int| 1 <= i < r@.len() ==> (#[trigger] r@[i]).role != Role::System,
    {
        let mut r: Vec<ChatMessage> = Vec::new();
        r.push(ChatMessage::new(Role::System, system_prompt));
        assert(views(r@) =~= seq![message_view(Role::System, system_prompt@)]);
        self.history_copy(session_id, &mut r);
        proof {
            let h = self@.history(session_id@);
            let full = seq![message_view(Role::System, system_prompt@)] + h;
            assert(views(r@).len() == r@.len());
            assert(full.len() == r@.len());
            assert forall|i: int| 1 <= i < r@.len() implies (#[trigger] r@[i]).role != Role::System by {
                assert(views(r@)[i] == r@[i]@);
                assert(full[i] == h[i - 1]);
                assert(h[i - 1].role != Role::System);
            }
            assert(views(r@)[0] == r@[0]@);
            assert(full[0] == message_view(Role::System, system_prompt@));
        }
        r
    }

    /// Drops the history of a session.
    pub fn reset(&mut self, session_id: &str)
        ensures
            final(self)@ == old(self)@.without_session(session_id@),
    {
        proof { use_type_invariant(&*self); }
        let mut ss: Vec<Session> = Vec::new();
        std::mem::swap(&mut ss, &mut self.sessions);
        match find_in(&ss, session_id) {
            Some(i) => {
                proof {
                    lemma_map_remove(ss@, i as int);
                    lemma_roles_remove(ss@, i as int);
                }
                ss.remove(i);
            },
            None => {
                assert(session_map(ss@) =~= session_map(ss@).remove(session_id@));
            },
        }
        self.sessions = ss;
    }
}

/// After a user message, the session holds at most `2 * max_history` messages.
pub proof fn law_history_bounded(c: ConversationView, session: Seq<char>, content: Seq<char>)
    ensures
        c.with_user_message(session, content).history(session).len() <= 2 * c.max_history,
{
}

/// A user message keeps the most recent messages in their order: the new
/// history is the old one with the message appended, cut at the front; and the
/// message itself is the last one unless no history is kept at all.
pub proof fn law_recent_messages_kept(c: ConversationView, session: Seq<char>, content: Seq<char>)
    ensures
        ({
            let full = c.history(session).push(message_view(Role::User, content));
            let h = c.with_user_message(session, content).history(session);
            &&& h == full.subrange(full.len() - h.len(), full.len() as int)
            &&& c.max_history > 0 ==> h.last() == message_view(Role::User, content)
        }),
{
    let full = c.history(session).push(message_view(Role::User, content));
    let h = c.with_user_message(session, content).history(session);
    if full.len() <= 2 * c.max_history {
        assert(full.subrange(0, full.len() as int) =~= full);
    }
}

/// Sessions do not affect each other: a user message, an assistant message or
/// a reset of one session leaves the messages of every other session as they
/// were.
pub proof fn law_sessions_independent(c: ConversationView, s: Seq<char>, other: Seq<char>, content: Seq<char>)
    requires
        s != other,
    ensures
        c.with_user_message(s, content).messages(other) == c.messages(other),
        c.with_assistant_message(s, content).messages(other) == c.messages(other),
        c.without_session(s).messages(other) == c.messages(other),
{
}

/// After a reset, the session's messages are the system prompt alone.
pub proof fn law_reset_clears(c: ConversationView, s: Seq<char>)
    ensures
        c.without_session(s).messages(s) == match c.system_prompt {
            Some(p) => seq![message_view(Role::System, p)],
            None => Seq::<ChatMessageView>::empty(),
        },
{
    let r = c.without_session(s);
    assert(r.history(s) =~= Seq::<ChatMessageView>::empty());
    match c.system_prompt {
        Some(p) => {
            assert(seq![message_view(Role::System, p)] + Seq::<ChatMessageView>::empty() =~= seq![message_view(Role::System, p)]);
        },
        None => {},
    }
}

/// An assistant message for a session that holds no history is dropped.
pub proof fn law_reply_needs_session(c: ConversationView, s: Seq<char>, content: Seq<char>)
    requires
        !c.sessions.dom().contains(s),
    ensures
        c.with_assistant_message(s, content) == c,
{
}

/// The configured system prompt always comes first, and the history follows in
/// order.
pub proof fn law_system_prompt_first(c: ConversationView, s: Seq<char>)
    ensures
        match c.system_prompt {
            Some(p) => c.messages(s)[0] == message_view(Role::System, p)
                && c.messages(s).skip(1) == c.history(s),
            None => c.messages(s) == c.history(s),
        },
{
    match c.system_prompt {
        Some(p) => {
            assert(c.messages(s).skip(1) =~= c.history(s));
        },
        None => {},
    }
}

} // verus!
