//! The in-process message bus: one queue of messages per address, and a pool
//! of workers that bounds how many messages wait to be taken.
//!
//! A message is the JSON envelope `{"src": .., "data": .., "type": ..}`. New
//! messages enter a queue at its front and are taken from its back, so each
//! address hands its messages out in the order they were sent.
use std::collections::VecDeque;
use vstd::hash_map::StringHashMap;
use vstd::prelude::*;
use crate::json::{json_object_of_strings, json_object_text, pair_views};

verus! {

/// The number of workers a fresh bus starts with.
pub const INITIAL_WORKERS: u64 = 10;

/// The texts of a queue of messages.
pub open spec fn message_texts(q: Seq<String>) -> Seq<Seq<char>> {
    q.map_values(|m: String| m@)
}

/// The members of the envelope of a message: who sent it, what it carries and
/// of which kind it is (`publish` or `dispatch`).
pub open spec fn envelope_fields(src: Seq<char>, data: Seq<char>, kind: Seq<char>) -> Seq<
    (Seq<char>, Seq<char>),
> {
    seq![("src"@, src), ("data"@, data), ("type"@, kind)]
}

/// The text of the envelope of a message.
pub open spec fn envelope(src: Seq<char>, data: Seq<char>, kind: Seq<char>) -> Seq<char> {
    json_object_text(envelope_fields(src, data, kind))
}

/// The queue of `address`; an address with no queue counts as empty.
pub open spec fn queue_at(queues: Map<Seq<char>, Seq<Seq<char>>>, address: Seq<char>) -> Seq<
    Seq<char>,
> {
    if queues.contains_key(address) {
        queues[address]
    } else {
        Seq::empty()
    }
}

/// The message that taking from queue `q` gives: the oldest one, at its back.
pub open spec fn next_message(q: Seq<Seq<char>>) -> Option<Seq<char>> {
    if q.len() > 0 {
        Some(q.last())
    } else {
        None
    }
}

/// Queue `q` once a message has been taken from it.
pub open spec fn after_take(q: Seq<Seq<char>>) -> Seq<Seq<char>> {
    if q.len() > 0 {
        q.drop_last()
    } else {
        q
    }
}

/// Queue `q` once `message` has been sent to it.
pub open spec fn after_send(q: Seq<Seq<char>>, message: Seq<char>) -> Seq<Seq<char>> {
    seq![message] + q
}

/// The views of an optional message.
pub open spec fn opt_text(m: Option<String>) -> Option<Seq<char>> {
    match m {
        Some(s) => Some(s@),
        None => None,
    }
}

/// How many messages wait in the queues `qs`, all addresses together.
pub open spec fn queued(qs: Map<Seq<char>, Seq<Seq<char>>>) -> int
    decreases qs.dom().len(),
{
    if qs.dom().finite() && qs.dom().len() > 0 {
        let k = qs.dom().choose();
        proof {
            assert(qs.remove(k).dom() =~= qs.dom().remove(k));
        }
        qs[k].len() + queued(qs.remove(k))
    } else {
        0
    }
}

/// Dropping the queue of `k` takes its messages out of the count.
pub proof fn lemma_queued_remove(qs: Map<Seq<char>, Seq<Seq<char>>>, k: Seq<char>)
    requires
        qs.dom().finite(),
        qs.dom().contains(k),
    ensures
        queued(qs) == qs[k].len() + queued(qs.remove(k)),
    decreases qs.dom().len(),
{
    let c = qs.dom().choose();
    assert(qs.dom().len() > 0);
    assert(qs.remove(c).dom() =~= qs.dom().remove(c));
    assert(qs.remove(k).dom() =~= qs.dom().remove(k));
    if c != k {
        lemma_queued_remove(qs.remove(c), k);
        lemma_queued_remove(qs.remove(k), c);
        assert(qs.remove(c).remove(k) =~= qs.remove(k).remove(c));
    } else {
        assert(qs.remove(c) =~= qs.remove(k));
    }
}

/// Putting queue `q` at `k` changes the count of waiting messages by the
/// difference of the lengths.
pub proof fn lemma_queued_insert(qs: Map<Seq<char>, Seq<Seq<char>>>, k: Seq<char>, q: Seq<Seq<char>>)
    requires
        qs.dom().finite(),
    ensures
        qs.insert(k, q).dom().finite(),
        queued(qs.insert(k, q)) == queued(qs) - queue_at(qs, k).len() + q.len(),
{
    let n = qs.insert(k, q);
    assert(n.dom() =~= qs.dom().insert(k));
    lemma_queued_remove(n, k);
    if qs.dom().contains(k) {
        lemma_queued_remove(qs, k);
        assert(n.remove(k) =~= qs.remove(k));
    } else {
        assert(n.remove(k) =~= qs);
    }
}

/// Every worker is either free or carrying a message that waits in a queue:
/// the free workers and the waiting messages add up to `INITIAL_WORKERS`.
pub open spec fn workers_conserved(b: MultiBus) -> bool {
    &&& b.queues().dom().finite()
    &&& b.workers() + queued(b.queues()) == INITIAL_WORKERS
}

/// Asynchronous message passing between handlers: a queue of messages per
/// address and a count of the workers free to carry one more message.
pub struct MultiBus {
    number_of_workers: u64,
    memory: StringHashMap<VecDeque<String>>,
}

/// What asking an address for a message gives at once.
#[derive(Debug, PartialEq, Eq)]
pub enum Request {
    /// A message was taken (or the queue was found empty after a wake-up).
    Ready(Option<String>),
    /// The queue is empty: wait until something is sent there, then take.
    Wait,
}

/// Creates a bus with `INITIAL_WORKERS` workers and no address.
pub fn create_bus() -> (bus: MultiBus)
    ensures
        bus.workers() == INITIAL_WORKERS,
        bus.queues() == Map::<Seq<char>, Seq<Seq<char>>>::empty(),
        workers_conserved(bus),
{
    let bus = MultiBus { number_of_workers: INITIAL_WORKERS, memory: StringHashMap::new() };
    assert(bus.queues() =~= Map::<Seq<char>, Seq<Seq<char>>>::empty());
    assert(bus.queues().dom() =~= Set::<Seq<char>>::empty());
    bus
}

impl MultiBus {
    /// The number of workers free to carry a message.
    pub closed spec fn workers(&self) -> int {
        self.number_of_workers as int
    }

    /// The queue of each known address, newest message first.
    pub closed spec fn queues(&self) -> Map<Seq<char>, Seq<Seq<char>>> {
        self.memory@.map_values(|q: VecDeque<String>| message_texts(q@))
    }

    /// Gives `address` a fresh, empty queue (dropping what it held).
    pub fn initialize(&mut self, address: String)
        ensures
            final(self).workers() == old(self).workers(),
            final(self).queues() == old(self).queues().insert(address@, Seq::empty()),
            workers_conserved(*old(self)) && queue_at(old(self).queues(), address@).len() == 0
                ==> workers_conserved(*final(self)),
    {
        let ghost key = address@;
        let queue: VecDeque<String> = VecDeque::new();
        assert(message_texts(queue@) =~= Seq::empty());
        self.memory.insert(address, queue);
        assert(self.queues() =~= old(self).queues().insert(key, Seq::empty()));
        proof {
            if workers_conserved(*old(self)) {
                lemma_queued_insert(old(self).queues(), key, Seq::empty());
            }
        }
    }

    /// Forgets `address` and its queue.
    pub fn remove(&mut self, address: &str)
        ensures
            final(self).workers() == old(self).workers(),
            final(self).queues() == old(self).queues().remove(address@),
            workers_conserved(*old(self)) && queue_at(old(self).queues(), address@).len() == 0
                ==> workers_conserved(*final(self)),
    {
        self.memory.remove(address);
        assert(self.queues() =~= old(self).queues().remove(address@));
        proof {
            let qs = old(self).queues();
            if workers_conserved(*old(self)) {
                assert(self.queues().dom() =~= qs.dom().remove(address@));
                if qs.dom().contains(address@) {
                    lemma_queued_remove(qs, address@);
                } else {
                    assert(qs.remove(address@) =~= qs);
                }
            }
        }
    }

    /// Whether `address` has a queue.
    pub fn has_address(&self, address: &str) -> (known: bool)
        ensures
            known == self.queues().contains_key(address@),
    {
        self.memory.contains_key(address)
    }

    /// The number of free workers.
    pub fn free_workers(&self) -> (n: u64)
        ensures
            n == self.workers(),
    {
        self.number_of_workers
    }

    /// Sends `data` from `src` to `address`, as a message of kind `kind`. With
    /// no free worker nothing happens and `false` comes back: the sender waits
    /// for a worker and tries again. Otherwise one worker is taken and the
    /// envelope enters the front of the queue of `address`.
    pub fn send_data(&mut self, data: String, address: String, src: String, kind: String) -> (accepted:
        bool)
        requires
            old(self).queues().contains_key(address@),
        ensures
            accepted == (old(self).workers() > 0),
            accepted ==> final(self).workers() == old(self).workers() - 1,
            accepted ==> final(self).queues() == old(self).queues().insert(
                address@,
                after_send(old(self).queues()[address@], envelope(src@, data@, kind@)),
            ),
            !accepted ==> final(self).workers() == old(self).workers(),
            !accepted ==> final(self).queues() == old(self).queues(),
            workers_conserved(*old(self)) ==> workers_conserved(*final(self)),
    {
        if self.number_of_workers == 0 {
            return false;
        }
        proof {
            reveal_strlit("src");
            reveal_strlit("data");
            reveal_strlit("type");
        }
        let ghost (sv, dv, kv) = (src@, data@, kind@);
        let ghost fields = envelope_fields(sv, dv, kv);
        let members = vec![
            (String::from_str("src"), src),
            (String::from_str("data"), data),
            (String::from_str("type"), kind),
        ];
        assert(pair_views(members@) =~= fields);
        let message = json_object_of_strings(&members);
        let mut queue = match self.memory.get(address.as_str()) {
            Some(q) => q.clone(),
            None => VecDeque::new(),
        };
        let ghost old_queue = queue@;
        assert(old_queue =~= self.memory@[address@]@);
        let ghost text = message@;
        queue.push_front(message);
        let ghost key = address@;
        self.memory.insert(address, queue);
        self.number_of_workers = self.number_of_workers - 1;
        assert(message_texts(queue@) =~= after_send(message_texts(old_queue), text));
        assert(self.queues() =~= old(self).queues().insert(
            key,
            after_send(old(self).queues()[key], text),
        ));
        proof {
            if workers_conserved(*old(self)) {
                lemma_send_keeps_workers_conserved(*old(self), *self, key, sv, dv, kv);
            }
        }
        true
    }

    /// Asks `address` for a message. A message waiting there is taken at once
    /// (see `get_one_request`); with none, the caller is told to wait for the
    /// next send to that address and take then.
    pub fn request_data(&mut self, address: &str) -> (step: Request)
        requires
            old(self).queues().contains_key(address@),
            old(self).workers() < i64::MAX,
        ensures
            old(self).queues()[address@].len() == 0 ==> step is Wait && *final(self) == *old(
                self,
            ),
            old(self).queues()[address@].len() > 0 ==> {
                &&& step matches Request::Ready(m) && opt_text(m) == next_message(
                    old(self).queues()[address@],
                )
                &&& final(self).workers() == old(self).workers() + 1
                &&& final(self).queues() == old(self).queues().insert(
                    address@,
                    after_take(old(self).queues()[address@]),
                )
            },
            workers_conserved(*old(self)) ==> workers_conserved(*final(self)),
    {
        let waiting = match self.memory.get(address) {
            Some(q) => q.len(),
            None => 0,
        };
        if waiting > 0 {
            Request::Ready(self.get_one_request(address))
        } else {
            Request::Wait
        }
    }

    /// Takes the oldest message of `address`, if any, and frees one worker
    /// (whether or not a message was there). An address with no queue is
    /// given an empty one.
    pub fn get_one_request(&mut self, address: &str) -> (message: Option<String>)
        requires
            old(self).workers() < i64::MAX,
        ensures
            final(self).workers() == old(self).workers() + 1,
            opt_text(message) == next_message(queue_at(old(self).queues(), address@)),
            final(self).queues() == old(self).queues().insert(
                address@,
                after_take(queue_at(old(self).queues(), address@)),
            ),
            workers_conserved(*old(self)) && message is Some ==> workers_conserved(*final(self)),
    {
        let mut queue = match self.memory.get(address) {
            Some(q) => q.clone(),
            None => VecDeque::new(),
        };
        let ghost old_queue = queue@;
        assert(message_texts(old_queue) =~= queue_at(old(self).queues(), address@));
        let message = queue.pop_back();
        proof {
            if old_queue.len() > 0 {
                assert(message_texts(queue@) =~= message_texts(old_queue).drop_last());
            }
        }
        self.memory.insert(address.to_owned(), queue);
        self.number_of_workers = self.number_of_workers + 1;
        assert(self.queues() =~= old(self).queues().insert(
            address@,
            after_take(queue_at(old(self).queues(), address@)),
        ));
        proof {
            if workers_conserved(*old(self)) && message is Some {
                lemma_take_keeps_workers_conserved(*old(self), *self, address@, opt_text(message));
            }
        }
        message
    }
}

/// Queue `q` once every message of `messages` has been sent to it, in order.
pub open spec fn after_sending_all(q: Seq<Seq<char>>, messages: Seq<Seq<char>>) -> Seq<Seq<char>>
    decreases messages.len(),
{
    if messages.len() == 0 {
        q
    } else {
        after_send(after_sending_all(q, messages.drop_last()), messages.last())
    }
}

/// The messages that taking from queue `q` until it is empty gives, in order:
/// each take gives `next_message` and leaves `after_take`.
pub open spec fn drained(q: Seq<Seq<char>>) -> Seq<Seq<char>>
    decreases q.len(),
{
    if q.len() == 0 {
        Seq::empty()
    } else {
        seq![next_message(q).unwrap()] + drained(after_take(q))
    }
}

proof fn lemma_drained_after_send(q: Seq<Seq<char>>, m: Seq<char>)
    ensures
        drained(after_send(q, m)) == drained(q).push(m),
    decreases q.len(),
{
    let s = after_send(q, m);
    if q.len() == 0 {
        assert(s.drop_last() =~= Seq::<Seq<char>>::empty());
        assert(s.last() == m);
        assert(drained(s.drop_last()) =~= Seq::<Seq<char>>::empty());
        assert(drained(s) =~= seq![m]);
        assert(drained(q).push(m) =~= seq![m]);
    } else {
        assert(s.drop_last() =~= after_send(q.drop_last(), m));
        lemma_drained_after_send(q.drop_last(), m);
        assert(drained(s) =~= drained(q).push(m));
    }
}

/// An address hands its messages out first in, first out: sending `messages`
/// to a queue and then taking until it is empty gives what was already
/// queued, then `messages` in the order they were sent.
pub proof fn lemma_queue_is_fifo(q: Seq<Seq<char>>, messages: Seq<Seq<char>>)
    ensures
        drained(after_sending_all(q, messages)) == drained(q) + messages,
    decreases messages.len(),
{
    if messages.len() == 0 {
        assert(drained(q) + messages =~= drained(q));
    } else {
        lemma_queue_is_fifo(q, messages.drop_last());
        lemma_drained_after_send(after_sending_all(q, messages.drop_last()), messages.last());
        assert(drained(q) + messages =~= (drained(q) + messages.drop_last()).push(messages.last()));
    }
}

/// What a send that was accepted does to a bus: one worker taken, the
/// envelope at the front of the queue of `address`.
pub open spec fn accepted_send(
    before: MultiBus,
    after: MultiBus,
    address: Seq<char>,
    src: Seq<char>,
    data: Seq<char>,
    kind: Seq<char>,
) -> bool {
    &&& before.queues().contains_key(address)
    &&& after.workers() == before.workers() - 1
    &&& after.queues() == before.queues().insert(
        address,
        after_send(before.queues()[address], envelope(src, data, kind)),
    )
}

/// What taking from `address` does to a bus, and what it gives.
pub open spec fn took(
    before: MultiBus,
    after: MultiBus,
    address: Seq<char>,
    message: Option<Seq<char>>,
) -> bool {
    &&& after.workers() == before.workers() + 1
    &&& message == next_message(queue_at(before.queues(), address))
    &&& after.queues() == before.queues().insert(
        address,
        after_take(queue_at(before.queues(), address)),
    )
}

/// A message sent to an address with an empty queue is the next one taken
/// there: the taker gets its envelope, the queue is empty again, and the
/// worker the send took is given back.
pub proof fn lemma_send_then_take(
    b0: MultiBus,
    b1: MultiBus,
    b2: MultiBus,
    address: Seq<char>,
    src: Seq<char>,
    data: Seq<char>,
    kind: Seq<char>,
    message: Option<Seq<char>>,
)
    requires
        b0.queues().contains_key(address),
        b0.queues()[address].len() == 0,
        accepted_send(b0, b1, address, src, data, kind),
        took(b1, b2, address, message),
    ensures
        message == Some(envelope(src, data, kind)),
        b2.workers() == b0.workers(),
        b2.queues() == b0.queues(),
{
    assert(b1.queues()[address] =~= seq![envelope(src, data, kind)]);
    assert(after_take(b1.queues()[address]) =~= b0.queues()[address]);
    assert(b2.queues() =~= b0.queues());
}

/// Opening an address that was not there and closing it again leaves the bus
/// as it was: the same queues and the same free workers.
pub proof fn lemma_open_then_close(b0: MultiBus, b1: MultiBus, b2: MultiBus, address: Seq<char>)
    requires
        !b0.queues().contains_key(address),
        b1.workers() == b0.workers(),
        b1.queues() == b0.queues().insert(address, Seq::empty()),
        b2.workers() == b1.workers(),
        b2.queues() == b1.queues().remove(address),
    ensures
        b2.workers() == b0.workers(),
        b2.queues() == b0.queues(),
{
    assert(b2.queues() =~= b0.queues());
}

/// An accepted send keeps the count: the worker it takes now carries the
/// message it queued.
pub proof fn lemma_send_keeps_workers_conserved(
    before: MultiBus,
    after: MultiBus,
    address: Seq<char>,
    src: Seq<char>,
    data: Seq<char>,
    kind: Seq<char>,
)
    requires
        workers_conserved(before),
        accepted_send(before, after, address, src, data, kind),
    ensures
        workers_conserved(after),
{
    let q = before.queues()[address];
    lemma_queued_insert(before.queues(), address, after_send(q, envelope(src, data, kind)));
}

/// A take that gives a message keeps the count: the message leaves its
/// queue and its worker is free again.
pub proof fn lemma_take_keeps_workers_conserved(
    before: MultiBus,
    after: MultiBus,
    address: Seq<char>,
    message: Option<Seq<char>>,
)
    requires
        workers_conserved(before),
        took(before, after, address, message),
        message is Some,
    ensures
        workers_conserved(after),
{
    let q = queue_at(before.queues(), address);
    lemma_queued_insert(before.queues(), address, after_take(q));
}

/// No address, no waiting message.
pub proof fn lemma_queued_empty()
    ensures
        queued(Map::<Seq<char>, Seq<Seq<char>>>::empty()) == 0,
{
    assert(Map::<Seq<char>, Seq<Seq<char>>>::empty().dom() =~= Set::<Seq<char>>::empty());
}

} // verus!
