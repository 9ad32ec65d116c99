use vstd::prelude::*;
use vstd::hash_map::StringHashMap;

use crate::providers::messages::{messages_view, ChatMessage, MessageView};
use crate::text::{concat3, copy_string};

verus! {

/// The identity a session runs under, and when its lease ends.
#[derive(Debug, Clone)]
pub struct SessionIdentity {
    pub tenant_id: String,
    pub principal_id: String,
    pub policy_id: String,
    pub lease_token: String,
    pub expires_at_ms: u64,
}

impl SessionIdentity {
    /// A copy of this identity.
    pub fn duplicate(&self) -> (r: SessionIdentity)
        ensures
            r == *self,
    {
        SessionIdentity {
            tenant_id: copy_string(&self.tenant_id),
            principal_id: copy_string(&self.principal_id),
            policy_id: copy_string(&self.policy_id),
            lease_token: copy_string(&self.lease_token),
            expires_at_ms: self.expires_at_ms,
        }
    }
}

/// One session's chat history.
#[derive(Debug, Clone)]
pub struct Session {
    pub key: String,
    pub history: Vec<ChatMessage>,
}

/// Index of the first message kept when at most `max` of `len` messages are kept.
pub open spec fn recent_start(len: nat, max: nat) -> int {
    if len > max {
        len - max
    } else {
        0
    }
}

/// The last `max` entries of `h` (all of them when there are fewer).
pub open spec fn recent<T>(h: Seq<T>, max: nat) -> Seq<T> {
    h.subrange(recent_start(h.len(), max), h.len() as int)
}

impl Session {
    /// An empty session under `key`.
    pub fn new(key: &str) -> (s: Session)
        ensures
            s.key@ == key@,
            s.history@.len() == 0,
    {
        Session { key: String::from_str(key), history: Vec::new() }
    }

    /// Appends a message with the given role and content.
    pub fn push(&mut self, role: &str, content: &str)
        ensures
            final(self).key == old(self).key,
            messages_view(final(self).history@) == messages_view(old(self).history@).push(
                (role@, content@),
            ),
    {
        self.history.push(ChatMessage::from_parts(role, content));
        assert(messages_view(self.history@) =~= messages_view(old(self).history@).push(
            (role@, content@),
        ));
    }

    /// The last `max_messages` messages, oldest first.
    pub fn recent_history(&self, max_messages: usize) -> (r: Vec<ChatMessage>)
        ensures
            r@ == recent(self.history@, max_messages as nat),
    {
        let len = self.history.len();
        let start = len.saturating_sub(max_messages);
        let mut r: Vec<ChatMessage> = Vec::new();
        let mut i: usize = start;
        while i < len
            invariant
                len == self.history.len(),
                start == recent_start(len as nat, max_messages as nat),
                start <= i <= len,
                r@ == self.history@.subrange(start as int, i as int),
            decreases len - i,
        {
            r.push(self.history[i].duplicate());
            i = i + 1;
            assert(r@ =~= self.history@.subrange(start as int, i as int));
        }
        r
    }

    /// A copy of this session.
    pub fn duplicate(&self) -> (r: Session)
        ensures
            r.key == self.key,
            r.history@ == self.history@,
    {
        let history = self.recent_history(self.history.len());
        assert(history@ =~= self.history@);
        Session { key: copy_string(&self.key), history }
    }
}

/// The contents of a session store: each session's full history, each bound
/// identity, and how many messages a history read returns.
pub struct SessionStoreView {
    pub histories: Map<Seq<char>, Seq<MessageView>>,
    pub identities: Map<Seq<char>, SessionIdentity>,
    pub memory_window: nat,
}

/// Chat histories and identities of all sessions, keyed by session id.
pub struct SessionStore {
    inner: StringHashMap<Session>,
    identities: StringHashMap<SessionIdentity>,
    memory_window: usize,
}

impl View for SessionStore {
    type V = SessionStoreView;

    closed spec fn view(&self) -> SessionStoreView {
        SessionStoreView {
            histories: self.inner@.map_values(|s: Session| messages_view(s.history@)),
            identities: self.identities@,
            memory_window: self.memory_window as nat,
        }
    }
}

/// The store after `m` is appended to the history of session `id` (a new session
/// starts with an empty history).
pub open spec fn appended(v: SessionStoreView, id: Seq<char>, m: MessageView) -> SessionStoreView {
    let before = if v.histories.contains_key(id) {
        v.histories[id]
    } else {
        Seq::empty()
    };
    SessionStoreView { histories: v.histories.insert(id, before.push(m)), ..v }
}

/// What a history read of session `id` returns: its last `memory_window` messages,
/// or nothing for an unknown session.
pub open spec fn history_of(v: SessionStoreView, id: Seq<char>) -> Seq<MessageView> {
    if v.histories.contains_key(id) {
        recent(v.histories[id], v.memory_window)
    } else {
        Seq::empty()
    }
}

/// The store after `identity` is bound to session `id`.
pub open spec fn bound(v: SessionStoreView, id: Seq<char>, identity: SessionIdentity) -> SessionStoreView {
    SessionStoreView { identities: v.identities.insert(id, identity), ..v }
}

/// The identity bound to session `id`, if any.
pub open spec fn identity_of(v: SessionStoreView, id: Seq<char>) -> Option<SessionIdentity> {
    if v.identities.contains_key(id) {
        Some(v.identities[id])
    } else {
        None
    }
}

/// The text stored for a tool's output: `"{tool}: {content}"`.
pub open spec fn tool_note(tool_name: Seq<char>, content: Seq<char>) -> Seq<char> {
    tool_name + ": "@ + content
}

impl SessionStore {
    /// An empty store whose history reads return at most `memory_window` messages.
    pub fn new(memory_window: usize) -> (s: SessionStore)
        ensures
            s@.histories == Map::<Seq<char>, Seq<MessageView>>::empty(),
            s@.identities == Map::<Seq<char>, SessionIdentity>::empty(),
            s@.memory_window == memory_window,
    {
        let s = SessionStore {
            inner: StringHashMap::new(),
            identities: StringHashMap::new(),
            memory_window,
        };
        assert(s@.histories =~= Map::<Seq<char>, Seq<MessageView>>::empty());
        s
    }

    fn append(&mut self, session_id: &str, role: &str, content: &str)
        ensures
            final(self)@ == appended(old(self)@, session_id@, (role@, content@)),
    {
        let ghost before = if old(self)@.histories.contains_key(session_id@) {
            old(self)@.histories[session_id@]
        } else {
            Seq::<MessageView>::empty()
        };
        let mut session = match self.inner.get(session_id) {
            Some(existing) => existing.duplicate(),
            None => {
                let s = Session::new(session_id);
                assert(messages_view(s.history@) =~= Seq::<MessageView>::empty());
                s
            },
        };
        assert(messages_view(session.history@) == before);
        session.push(role, content);
        self.inner.insert(String::from_str(session_id), session);
        assert(self@.histories =~= appended(old(self)@, session_id@, (role@, content@)).histories);
    }

    /// Records a user message in session `session_id`.
    pub fn append_user_message(&mut self, session_id: &str, content: &str)
        ensures
            final(self)@ == appended(old(self)@, session_id@, ("user"@, content@)),
    {
        self.append(session_id, "user", content);
    }

    /// Records an assistant message in session `session_id`.
    pub fn append_assistant_message(&mut self, session_id: &str, content: &str)
        ensures
            final(self)@ == appended(old(self)@, session_id@, ("assistant"@, content@)),
    {
        self.append(session_id, "assistant", content);
    }

    /// Records a tool's output in session `session_id`, as `"{tool}: {content}"`.
    pub fn append_tool_message(&mut self, session_id: &str, tool_name: &str, content: &str)
        ensures
            final(self)@ == appended(
                old(self)@,
                session_id@,
                ("tool"@, tool_note(tool_name@, content@)),
            ),
    {
        let note = concat3(tool_name, ": ", content);
        self.append(session_id, "tool", note.as_str());
    }

    /// The most recent messages of session `session_id`, at most `memory_window` of them.
    pub fn history(&self, session_id: &str) -> (r: Vec<ChatMessage>)
        ensures
            messages_view(r@) == history_of(self@, session_id@),
    {
        match self.inner.get(session_id) {
            Some(session) => {
                let r = session.recent_history(self.memory_window);
                assert(messages_view(r@) =~= history_of(self@, session_id@));
                r
            },
            None => {
                let r: Vec<ChatMessage> = Vec::new();
                assert(messages_view(r@) =~= history_of(self@, session_id@));
                r
            },
        }
    }

    /// Binds `identity` to session `session_id`, replacing any earlier one.
    pub fn bind_identity(&mut self, session_id: &str, identity: SessionIdentity)
        ensures
            final(self)@ == bound(old(self)@, session_id@, identity),
    {
        self.identities.insert(String::from_str(session_id), identity);
        assert(self@.histories =~= old(self)@.histories);
    }

    /// The identity bound to session `session_id`, if any.
    pub fn identity(&self, session_id: &str) -> (r: Option<SessionIdentity>)
        ensures
            r == identity_of(self@, session_id@),
    {
        match self.identities.get(session_id) {
            Some(identity) => Some(identity.duplicate()),
            None => None,
        }
    }
}

/// A read after a bind gives back the bound identity, and binding one session leaves
/// every other session's identity as it was.
pub proof fn law_identity_read_after_bind(
    v: SessionStoreView,
    id: Seq<char>,
    other: Seq<char>,
    identity: SessionIdentity,
)
    ensures
        identity_of(bound(v, id, identity), id) == Some(identity),
        other != id ==> identity_of(bound(v, id, identity), other) == identity_of(v, other),
        history_of(bound(v, id, identity), other) == history_of(v, other),
{
}

/// A history read after an append ends with the appended message (when the window
/// keeps any message), holds at most `memory_window` messages, and is the window over
/// the previous full history extended by that message.
pub proof fn law_history_after_append(v: SessionStoreView, id: Seq<char>, m: MessageView)
    ensures
        history_of(appended(v, id, m), id) == recent(
            (if v.histories.contains_key(id) {
                v.histories[id]
            } else {
                Seq::empty()
            }).push(m),
            v.memory_window,
        ),
        history_of(appended(v, id, m), id).len() <= v.memory_window,
        v.memory_window > 0 ==> history_of(appended(v, id, m), id).last() == m,
{
}

/// Appending to one session leaves every other session's history and all identities
/// as they were.
pub proof fn law_append_isolated(v: SessionStoreView, id: Seq<char>, other: Seq<char>, m: MessageView)
    requires
        other != id,
    ensures
        history_of(appended(v, id, m), other) == history_of(v, other),
        identity_of(appended(v, id, m), other) == identity_of(v, other),
        appended(v, id, m).identities == v.identities,
{
}

} // verus!
