//! The state handlers share, and the request that travels over Redis.
use vstd::hash_map::StringHashMap;
use vstd::prelude::*;

verus! {

/// A request carried over Redis pub/sub: its identifier, its payload, and the
/// channel the answer goes to (empty when no answer is wanted).
#[derive(Debug, Clone, PartialEq, Eq)]
pub struct RequestRedis {
    pub id: String,
    pub message: String,
    pub reply_channel: String,
}

/// `c` is a lower-case hexadecimal digit.
pub open spec fn is_lower_hex(c: char) -> bool {
    ('0' <= c && c <= '9') || ('a' <= c && c <= 'f')
}

/// `s` is a random (version 4) UUID in its hyphenated form: 36 characters,
/// hyphens at 8, 13, 18 and 23, lower-case hexadecimal digits elsewhere, the
/// version digit `4` at 14 and a variant digit of `8`, `9`, `a` or `b` at 19.
pub open spec fn is_uuid_v4_text(s: Seq<char>) -> bool {
    &&& s.len() == 36
    &&& forall|i: int|
        0 <= i < 36 ==> if i == 8 || i == 13 || i == 18 || i == 23 {
            #[trigger] s[i] == '-'
        } else {
            is_lower_hex(s[i])
        }
    &&& s[14] == '4'
    &&& (s[19] == '8' || s[19] == '9' || s[19] == 'a' || s[19] == 'b')
}

/// A fresh request identifier: `uuid::Uuid::new_v4`, printed by its
/// `Display`, which writes the hyphenated lower-case form. The identifier is
/// random; the contract states only its form: the hyphens, the hexadecimal
/// digits, and the version and variant digits that `new_v4` sets.
#[verifier::external_body]
fn new_request_id() -> (id: String)
    ensures
        is_uuid_v4_text(id@),
{
    uuid::Uuid::new_v4().to_string()
}

impl RequestRedis {
    /// A request from handler `handler_name` that wants an answer: a fresh
    /// identifier, and the reply channel `<handler_name>_<identifier>`.
    pub fn for_publish(handler_name: &str, message: String) -> (request: RequestRedis)
        ensures
            request.message == message,
            is_uuid_v4_text(request.id@),
            request.reply_channel@ == handler_name@ + "_"@ + request.id@,
    {
        let id = new_request_id();
        let mut reply_channel = handler_name.to_owned();
        reply_channel.append("_");
        reply_channel.append(id.as_str());
        RequestRedis { id, message, reply_channel }
    }

    /// A request that wants no answer: a fresh identifier and an empty reply
    /// channel.
    pub fn for_dispatch(message: String) -> (request: RequestRedis)
        ensures
            request.message == message,
            is_uuid_v4_text(request.id@),
            request.reply_channel@ == Seq::<char>::empty(),
    {
        RequestRedis { id: new_request_id(), message, reply_channel: String::new() }
    }

    /// Whether the sender waits for an answer (its reply channel is not empty).
    pub fn expects_reply(&self) -> (answer: bool)
        ensures
            answer == (self.reply_channel@.len() > 0),
    {
        self.reply_channel.as_str().unicode_len() > 0
    }
}

/// A store of named values shared by all handlers.
#[verifier::reject_recursive_types(V)]
pub struct SharedState<V> {
    elements: StringHashMap<V>,
}

impl<V> View for SharedState<V> {
    type V = Map<Seq<char>, V>;

    closed spec fn view(&self) -> Map<Seq<char>, V> {
        self.elements@
    }
}

impl<V> SharedState<V> {
    /// An empty store.
    pub fn new() -> (state: SharedState<V>)
        ensures
            state@ == Map::<Seq<char>, V>::empty(),
    {
        SharedState { elements: StringHashMap::new() }
    }

    /// The value stored under `key`, if any.
    pub fn get(&self, key: &String) -> (value: Option<&V>)
        ensures
            match value {
                Some(v) => self@.contains_key(key@) && *v == self@[key@],
                None => !self@.contains_key(key@),
            },
    {
        self.elements.get(key.as_str())
    }

    /// Stores `data` under `key`, replacing what was there.
    pub fn insert(&mut self, key: &String, data: V)
        ensures
            final(self)@ == old(self)@.insert(key@, data),
    {
        self.elements.insert(key.clone(), data);
    }

    /// Removes what is stored under `key`.
    pub fn delete(&mut self, key: &String)
        ensures
            final(self)@ == old(self)@.remove(key@),
    {
        self.elements.remove(key.as_str());
    }
}

/// The store reads back what was written: after `insert(key, data)` the value
/// under `key` is `data` and every other key reads as before; after
/// `delete(key)` nothing is stored under `key` and every other key reads as
/// before.
pub proof fn lemma_shared_state_read_after_write<V>(
    before: Map<Seq<char>, V>,
    key: Seq<char>,
    data: V,
    other: Seq<char>,
)
    requires
        other != key,
    ensures
        before.insert(key, data).contains_key(key),
        before.insert(key, data)[key] == data,
        before.insert(key, data).contains_key(other) == before.contains_key(other),
        before.contains_key(other) ==> before.insert(key, data)[other] == before[other],
        !before.remove(key).contains_key(key),
        before.remove(key).contains_key(other) == before.contains_key(other),
        before.contains_key(other) ==> before.remove(key)[other] == before[other],
{
}

} // verus!
