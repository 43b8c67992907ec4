//! The connection registry: which live connections belong to each chat, and
//! which chat each bound session token is connected to.
//!
//! A live connection is named by a `ConnectionId`, chosen by whoever owns the
//! connection's outbound channel; an entry of a chat is the pair
//! `(user id, connection id)`.

use dashmap::DashMap;
use vstd::prelude::*;

verus! {

pub type ConnectionId = u64;

#[verifier::external_type_specification]
#[verifier::external_body]
#[verifier::reject_recursive_types(K)]
#[verifier::reject_recursive_types(V)]
#[verifier::reject_recursive_types(S)]
pub struct ExDashMap<K, V, S>(DashMap<K, V, S>);

/// What a chat table holds: for each chat id, its entries in insertion order.
pub uninterp spec fn chat_entries(m: DashMap<i32, Vec<(i32, u64)>>) -> Map<i32, Seq<(i32, u64)>>;

/// What a token table holds: for each token, the chat it is bound to.
pub uninterp spec fn token_bindings(m: DashMap<String, i32>) -> Map<Seq<char>, i32>;

/// Relies on `DashMap::new`: a new map holds no entry.
#[verifier::external_body]
fn new_chat_table() -> (r: DashMap<i32, Vec<(i32, u64)>>)
    ensures
        chat_entries(r).dom() == Set::<i32>::empty(),
{
    DashMap::new()
}

/// Relies on `DashMap::get`: the value stored under the key, if any, copied
/// out of the read guard.
#[verifier::external_body]
fn chat_table_get(m: &DashMap<i32, Vec<(i32, u64)>>, chat_id: i32) -> (r: Option<Vec<(i32, u64)>>)
    ensures
        chat_entries(*m).contains_key(chat_id) <==> r is Some,
        r matches Some(v) ==> v@ == chat_entries(*m)[chat_id],
{
    m.get(&chat_id).map(|e| e.value().clone())
}

/// Relies on `DashMap::insert`: the key afterwards maps to the new value and
/// every other key keeps its value.
#[verifier::external_body]
fn chat_table_insert(m: &mut DashMap<i32, Vec<(i32, u64)>>, chat_id: i32, v: Vec<(i32, u64)>)
    ensures
        chat_entries(*final(m)) == chat_entries(*old(m)).insert(chat_id, v@),
{
    m.insert(chat_id, v);
}

/// Relies on `DashMap::new`: a new map holds no entry.
#[verifier::external_body]
fn new_token_table() -> (r: DashMap<String, i32>)
    ensures
        token_bindings(r).dom() == Set::<Seq<char>>::empty(),
{
    DashMap::new()
}

/// Relies on `DashMap::get`: the value stored under the key, if any.
#[verifier::external_body]
fn token_table_get(m: &DashMap<String, i32>, token: &str) -> (r: Option<i32>)
    ensures
        token_bindings(*m).contains_key(token@) <==> r is Some,
        r matches Some(c) ==> c == token_bindings(*m)[token@],
{
    m.get(token).map(|e| *e.value())
}

/// Relies on `DashMap::insert`: the key afterwards maps to the new value and
/// every other key keeps its value.
#[verifier::external_body]
fn token_table_insert(m: &mut DashMap<String, i32>, token: String, chat_id: i32)
    ensures
        token_bindings(*final(m)) == token_bindings(*old(m)).insert(token@, chat_id),
{
    m.insert(token, chat_id);
}

/// Relies on `DashMap::remove`: the key is absent afterwards and every other
/// key keeps its value.
#[verifier::external_body]
fn token_table_remove(m: &mut DashMap<String, i32>, token: &str)
    ensures
        token_bindings(*final(m)) == token_bindings(*old(m)).remove(token@),
{
    m.remove(token);
}

/// The entries of `entries` whose user is not `user_id`, in their order.
pub open spec fn without_user(entries: Seq<(i32, u64)>, user_id: i32) -> Seq<(i32, u64)>
    decreases entries.len(),
{
    if entries.len() == 0 {
        entries
    } else {
        let rest = without_user(entries.drop_last(), user_id);
        if entries.last().0 == user_id {
            rest
        } else {
            rest.push(entries.last())
        }
    }
}

/// The connections that a message of `sender` sent from `sender_conn` goes
/// to: every entry of another user on another connection, in entry order.
pub open spec fn recipients(entries: Seq<(i32, u64)>, sender: i32, sender_conn: u64) -> Seq<u64>
    decreases entries.len(),
{
    if entries.len() == 0 {
        Seq::empty()
    } else {
        let rest = recipients(entries.drop_last(), sender, sender_conn);
        let e = entries.last();
        if e.0 != sender && e.1 != sender_conn {
            rest.push(e.1)
        } else {
            rest
        }
    }
}

/// The registry as a mathematical value.
pub struct RegistryView {
    pub chats: Map<i32, Seq<(i32, u64)>>,
    pub tokens: Map<Seq<char>, i32>,
}

impl RegistryView {
    pub open spec fn empty() -> RegistryView {
        RegistryView { chats: Map::empty(), tokens: Map::empty() }
    }

    /// The current entries of a chat (none for a chat never seen).
    pub open spec fn targets(self, chat_id: i32) -> Seq<(i32, u64)> {
        if self.chats.contains_key(chat_id) {
            self.chats[chat_id]
        } else {
            Seq::empty()
        }
    }

    pub open spec fn bound_chat(self, token: Seq<char>) -> Option<i32> {
        if self.tokens.contains_key(token) {
            Some(self.tokens[token])
        } else {
            None
        }
    }

    pub open spec fn register(self, chat_id: i32, user_id: i32, conn: u64) -> RegistryView {
        RegistryView {
            chats: self.chats.insert(chat_id, self.targets(chat_id).push((user_id, conn))),
            tokens: self.tokens,
        }
    }

    pub open spec fn unregister(self, chat_id: i32, user_id: i32) -> RegistryView {
        if self.chats.contains_key(chat_id) {
            RegistryView {
                chats: self.chats.insert(chat_id, without_user(self.chats[chat_id], user_id)),
                tokens: self.tokens,
            }
        } else {
            self
        }
    }

    pub open spec fn bind_token(self, token: Seq<char>, chat_id: i32) -> RegistryView {
        RegistryView { chats: self.chats, tokens: self.tokens.insert(token, chat_id) }
    }

    pub open spec fn unbind_token(self, token: Seq<char>) -> RegistryView {
        RegistryView { chats: self.chats, tokens: self.tokens.remove(token) }
    }

    /// A live connection joins: its token is bound and its entry registered.
    pub open spec fn connect(self, token: Seq<char>, chat_id: i32, user_id: i32, conn: u64) -> RegistryView {
        self.bind_token(token, chat_id).register(chat_id, user_id, conn)
    }

    /// A live connection leaves: its token is unbound and its entries removed.
    pub open spec fn disconnect(self, token: Seq<char>, chat_id: i32, user_id: i32) -> RegistryView {
        self.unbind_token(token).unregister(chat_id, user_id)
    }
}

/// Process-wide map from chats to their live connections and from session
/// tokens to the chat they are bound to.
pub struct ConnectionRegistry {
    chat_connections: DashMap<i32, Vec<(i32, u64)>>,
    token_to_chat_id: DashMap<String, i32>,
}

impl View for ConnectionRegistry {
    type V = RegistryView;

    closed spec fn view(&self) -> RegistryView {
        RegistryView {
            chats: chat_entries(self.chat_connections),
            tokens: token_bindings(self.token_to_chat_id),
        }
    }
}

impl ConnectionRegistry {
    pub fn new() -> (r: ConnectionRegistry)
        ensures
            r@ == RegistryView::empty(),
    {
        let r = ConnectionRegistry { chat_connections: new_chat_table(), token_to_chat_id: new_token_table() };
        proof {
            assert(r@.chats =~= Map::empty());
            assert(r@.tokens =~= Map::empty());
        }
        r
    }

    /// Adds the entry `(user_id, conn)` at the end of the chat's entries.
    pub fn register(&mut self, chat_id: i32, user_id: i32, conn: ConnectionId)
        ensures
            final(self)@ == old(self)@.register(chat_id, user_id, conn),
    {
        let mut entries = match chat_table_get(&self.chat_connections, chat_id) {
            Some(v) => v,
            None => Vec::new(),
        };
        entries.push((user_id, conn));
        chat_table_insert(&mut self.chat_connections, chat_id, entries);
    }

    /// Removes every entry of `user_id` from the chat; a no-op when there is none.
    pub fn unregister(&mut self, chat_id: i32, user_id: i32)
        ensures
            final(self)@ == old(self)@.unregister(chat_id, user_id),
    {
        if let Some(entries) = chat_table_get(&self.chat_connections, chat_id) {
            let kept = keep_other_users(&entries, user_id);
            chat_table_insert(&mut self.chat_connections, chat_id, kept);
        }
    }

    /// A snapshot of the chat's entries.
    pub fn broadcast_targets(&self, chat_id: i32) -> (r: Vec<(i32, ConnectionId)>)
        ensures
            r@ == self@.targets(chat_id),
    {
        match chat_table_get(&self.chat_connections, chat_id) {
            Some(v) => v,
            None => Vec::new(),
        }
    }

    /// The connections that a message of `sender` from `sender_conn` in the
    /// chat is delivered to.
    pub fn recipients_of(&self, chat_id: i32, sender: i32, sender_conn: ConnectionId) -> (r: Vec<ConnectionId>)
        ensures
            r@ == recipients(self@.targets(chat_id), sender, sender_conn),
    {
        let entries = self.broadcast_targets(chat_id);
        let mut out: Vec<u64> = Vec::new();
        let mut i: usize = 0;
        while i < entries.len()
            invariant
                i <= entries@.len(),
                out@ == recipients(entries@.take(i as int), sender, sender_conn),
            decreases entries@.len() - i,
        {
            let e = entries[i];
            proof {
                assert(entries@.take(i + 1).drop_last() == entries@.take(i as int));
            }
            if e.0 != sender && e.1 != sender_conn {
                out.push(e.1);
            }
            i = i + 1;
        }
        proof {
            assert(entries@.take(entries@.len() as int) == entries@);
        }
        out
    }

    pub fn bind_token(&mut self, token: &String, chat_id: i32)
        ensures
            final(self)@ == old(self)@.bind_token(token@, chat_id),
    {
        token_table_insert(&mut self.token_to_chat_id, token.clone(), chat_id);
    }

    pub fn unbind_token(&mut self, token: &String)
        ensures
            final(self)@ == old(self)@.unbind_token(token@),
    {
        token_table_remove(&mut self.token_to_chat_id, token.as_str());
    }

    /// The chat the token is bound to, if any.
    pub fn bound_chat(&self, token: &String) -> (r: Option<i32>)
        ensures
            r == self@.bound_chat(token@),
    {
        token_table_get(&self.token_to_chat_id, token.as_str())
    }

    /// Binds the token and registers the connection, together.
    pub fn connect(&mut self, token: &String, chat_id: i32, user_id: i32, conn: ConnectionId)
        ensures
            final(self)@ == old(self)@.connect(token@, chat_id, user_id, conn),
    {
        self.bind_token(token, chat_id);
        self.register(chat_id, user_id, conn);
    }

    /// Unbinds the token and unregisters the user's entries, together.
    pub fn disconnect(&mut self, token: &String, chat_id: i32, user_id: i32)
        ensures
            final(self)@ == old(self)@.disconnect(token@, chat_id, user_id),
    {
        self.unbind_token(token);
        self.unregister(chat_id, user_id);
    }
}

/// The entries of another user than `user_id`, in their order.
fn keep_other_users(entries: &Vec<(i32, u64)>, user_id: i32) -> (r: Vec<(i32, u64)>)
    ensures
        r@ == without_user(entries@, user_id),
{
    let mut out: Vec<(i32, u64)> = Vec::new();
    let mut i: usize = 0;
    while i < entries.len()
        invariant
            i <= entries@.len(),
            out@ == without_user(entries@.take(i as int), user_id),
        decreases entries@.len() - i,
    {
        let e = entries[i];
        proof {
            assert(entries@.take(i + 1).drop_last() == entries@.take(i as int));
        }
        if e.0 != user_id {
            out.push(e);
        }
        i = i + 1;
    }
    proof {
        assert(entries@.take(entries@.len() as int) == entries@);
    }
    out
}

} // verus!
