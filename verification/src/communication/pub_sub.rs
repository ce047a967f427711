//! The publish/dispatch protocol over the bus. A dispatch sends a message and
//! expects nothing back. A publish opens a private reply address named after
//! the sender and a cycling publish number, sends its message with that
//! address as the source, takes the one reply that arrives there, and closes
//! the address again.
use vstd::prelude::*;
use crate::communication::multibus::{MultiBus, after_send, envelope, queue_at, workers_conserved};
use crate::text::{decimal_digits, decimal_text, lemma_decimal_digits_injective};

verus! {

/// Publish numbers run from 0 up to one below this bound, then start over.
pub const PUBLISH_ID_MODULUS: i32 = 3571823;

/// The answer a publish gives when no reply could be taken.
pub open spec fn no_reply_text() -> Seq<char> {
    "Something wrong happened while waiting for response"@
}

/// The private address on which a publish by `src` numbered `id` waits for
/// its reply: `src`, then `_pub`, then the decimal numeral of `id`.
pub open spec fn reply_address_of(src: Seq<char>, id: nat) -> Seq<char> {
    src + "_pub"@ + decimal_digits(id)
}

/// The source of publish numbers, shared by all publishes of a process.
pub struct PublishIds {
    next: i32,
}

impl PublishIds {
    /// The number always lies in `0 .. PUBLISH_ID_MODULUS`.
    #[verifier::type_invariant]
    spec fn in_range(&self) -> bool {
        0 <= self.next < PUBLISH_ID_MODULUS
    }

    /// The number the next publish gets.
    pub closed spec fn current(&self) -> int {
        self.next as int
    }

    /// Numbering starts at 0.
    pub fn new() -> (ids: PublishIds)
        ensures
            ids.current() == 0,
    {
        PublishIds { next: 0 }
    }

    /// Hands out the current number and moves on to the next one, wrapping
    /// around at `PUBLISH_ID_MODULUS`.
    pub fn take(&mut self) -> (id: i32)
        ensures
            id == old(self).current(),
            0 <= id < PUBLISH_ID_MODULUS,
            final(self).current() == (old(self).current() + 1) % (PUBLISH_ID_MODULUS as int),
    {
        proof {
            use_type_invariant(&*self);
        }
        let id = self.next;
        self.next = (id + 1) % PUBLISH_ID_MODULUS;
        id
    }
}

/// The reply address of a publish by `src` numbered `id`.
pub fn reply_address(src: &str, id: i32) -> (address: String)
    requires
        0 <= id,
    ensures
        address@ == reply_address_of(src@, id as nat),
{
    let mut address = src.to_owned();
    address.append("_pub");
    let numeral = decimal_text(id as u32);
    address.append(numeral.as_str());
    address
}

/// Two publishes by the same sender with different numbers wait on different
/// reply addresses.
pub proof fn lemma_reply_addresses_distinct(src: Seq<char>, a: nat, b: nat)
    requires
        a != b,
    ensures
        reply_address_of(src, a) != reply_address_of(src, b),
{
    let p = src + "_pub"@;
    if reply_address_of(src, a) == reply_address_of(src, b) {
        let ra = reply_address_of(src, a);
        assert(ra.subrange(p.len() as int, ra.len() as int) =~= decimal_digits(a));
        assert(reply_address_of(src, b).subrange(p.len() as int, ra.len() as int) =~= decimal_digits(
            b,
        ));
        lemma_decimal_digits_injective(a, b);
    }
}

/// Opens `topic` for messages: it gets a fresh, empty queue.
pub fn setup_publishing(topic: String, connection_network: &mut MultiBus)
    ensures
        final(connection_network).workers() == old(connection_network).workers(),
        final(connection_network).queues() == old(connection_network).queues().insert(
            topic@,
            Seq::empty(),
        ),
        workers_conserved(*old(connection_network)) && queue_at(
            old(connection_network).queues(),
            topic@,
        ).len() == 0 ==> workers_conserved(*final(connection_network)),
{
    connection_network.initialize(topic);
}

/// Sends `message` from `src` to `topic` as a dispatch, a message that expects
/// no reply. `false` means no worker was free and nothing was sent.
pub fn dispatch(src: String, topic: String, message: String, connection_network: &mut MultiBus) -> (sent:
    bool)
    requires
        old(connection_network).queues().contains_key(topic@),
    ensures
        sent == (old(connection_network).workers() > 0),
        sent ==> final(connection_network).workers() == old(connection_network).workers() - 1,
        sent ==> final(connection_network).queues() == old(connection_network).queues().insert(
            topic@,
            after_send(
                old(connection_network).queues()[topic@],
                envelope(src@, message@, "dispatch"@),
            ),
        ),
        !sent ==> final(connection_network).workers() == old(connection_network).workers(),
        !sent ==> final(connection_network).queues() == old(connection_network).queues(),
        workers_conserved(*old(connection_network)) ==> workers_conserved(*final(connection_network)),
{
    connection_network.send_data(message, topic, src, String::from_str("dispatch"))
}

/// Sends `message` to `topic` as a publish whose reply goes to `reply_to`.
/// `false` means no worker was free and nothing was sent.
pub fn send_publish(reply_to: String, topic: String, message: String, connection_network: &mut MultiBus) -> (sent:
    bool)
    requires
        old(connection_network).queues().contains_key(topic@),
    ensures
        sent == (old(connection_network).workers() > 0),
        sent ==> final(connection_network).workers() == old(connection_network).workers() - 1,
        sent ==> final(connection_network).queues() == old(connection_network).queues().insert(
            topic@,
            after_send(
                old(connection_network).queues()[topic@],
                envelope(reply_to@, message@, "publish"@),
            ),
        ),
        !sent ==> final(connection_network).workers() == old(connection_network).workers(),
        !sent ==> final(connection_network).queues() == old(connection_network).queues(),
        workers_conserved(*old(connection_network)) ==> workers_conserved(*final(connection_network)),
{
    connection_network.send_data(message, topic, reply_to, String::from_str("publish"))
}

/// What a publish answers once its reply address has been asked: the reply,
/// or a fixed note that none came.
pub fn publish_result(response: Option<String>) -> (answer: String)
    ensures
        answer@ == match response {
            Some(r) => r@,
            None => no_reply_text(),
        },
{
    match response {
        Some(r) => r,
        None => String::from_str("Something wrong happened while waiting for response"),
    }
}

} // verus!
