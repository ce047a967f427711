//! What a handler decides around the work it is given: how the answer to a
//! publish is read, how a message taken from the bus or from Redis becomes a
//! job, what is sent back once the job has run, how many replicas of a handler
//! may run at once, and how its Redis traffic is set up.
use vstd::prelude::*;
use crate::communication::multibus::{envelope, envelope_fields, opt_text};
use crate::json::{
    distinct_keys,
    json_member_str,
    json_member_text,
    json_object_text,
    json_string_literal,
    member_of,
    member_text_of,
    read_json_member_str,
    read_json_member_text,
};
use crate::states::{RequestRedis, is_uuid_v4_text};
use crate::text::same_text;

verus! {

proof fn lemma_envelope_keys(src: Seq<char>, data: Seq<char>, kind: Seq<char>)
    ensures
        distinct_keys(envelope_fields(src, data, kind)),
        member_of(envelope_fields(src, data, kind), "src"@) == Some(src),
        member_of(envelope_fields(src, data, kind), "data"@) == Some(data),
        member_of(envelope_fields(src, data, kind), "type"@) == Some(kind),
{
    reveal_strlit("src");
    reveal_strlit("data");
    reveal_strlit("type");
    reveal_with_fuel(member_of, 4);
    let f = envelope_fields(src, data, kind);
    assert(f.drop_first() =~= seq![("data"@, data), ("type"@, kind)]);
    assert(f.drop_first().drop_first() =~= seq![("type"@, kind)]);
    assert("src"@[0] != "data"@[0]);
    assert("src"@[0] != "type"@[0]);
    assert("data"@[0] != "type"@[0]);
    assert("src"@ != "data"@);
    assert("src"@ != "type"@);
    assert("data"@ != "type"@);
}

/// Reads the answer to a publish out of the reply taken from the bus: the
/// member `data` of the envelope, printed as JSON. `None` when the reply is not
/// JSON.
///
/// A reply that is the envelope of a message carrying `data` yields `data`
/// printed as a JSON string.
pub fn publish_response_data(response: &str) -> (answer: Option<String>)
    ensures
        opt_text(answer) == json_member_text(response@, "data"@),
        forall|src: Seq<char>, data: Seq<char>, kind: Seq<char>|
            response@ == #[trigger] envelope(src, data, kind) ==> opt_text(answer) == Some(
                json_string_literal(data),
            ),
{
    let answer = read_json_member_text(response, "data");
    proof {
        assert forall|src: Seq<char>, data: Seq<char>, kind: Seq<char>|
            response@ == #[trigger] envelope(src, data, kind) implies opt_text(answer) == Some(
            json_string_literal(data),
        ) by {
            lemma_envelope_keys(src, data, kind);
            assert(response@ == json_object_text(envelope_fields(src, data, kind)));
            assert(member_text_of(envelope_fields(src, data, kind), "data"@) == json_string_literal(
                data,
            ));
        }
    }
    answer
}

/// Where the work a handler runs came from.
#[derive(Debug, Clone, Copy, PartialEq, Eq)]
pub enum Origin {
    /// A message taken from the bus.
    Http,
    /// A request taken from Redis.
    Redis,
}

/// The work a handler runs: where it came from, the data to process, its kind
/// (`publish` wants an answer, anything else does not) and where an answer goes.
#[derive(Debug, Clone, PartialEq, Eq)]
pub struct Job {
    pub origin: Origin,
    pub data: String,
    pub kind: String,
    pub reply_to: String,
}

/// The job that the bus message `text` describes, when its members `data`,
/// `type` and `src` are all strings.
pub open spec fn job_of_message(text: Seq<char>) -> Option<(Seq<char>, Seq<char>, Seq<char>)> {
    match (json_member_str(text, "data"@), json_member_str(text, "type"@), json_member_str(text, "src"@)) {
        (Some(Some(d)), Some(Some(k)), Some(Some(s))) => Some((d, k, s)),
        _ => None,
    }
}

/// Turns a message taken from the bus into a job: its data, its kind and the
/// address its sender waits on. `None` when the text is not an envelope whose
/// `data`, `type` and `src` are strings.
///
/// The envelope of a message sent with `send_data` gives back exactly the
/// data, kind and source it was sent with.
pub fn decode_bus_message(text: &str) -> (job: Option<Job>)
    ensures
        match job {
            Some(j) => j.origin is Http && job_of_message(text@) == Some(
                (j.data@, j.kind@, j.reply_to@),
            ),
            None => job_of_message(text@) is None,
        },
        forall|src: Seq<char>, data: Seq<char>, kind: Seq<char>|
            text@ == #[trigger] envelope(src, data, kind) ==> (job matches Some(j) && j.data@
                == data && j.kind@ == kind && j.reply_to@ == src),
{
    let data = read_json_member_str(text, "data");
    let kind = read_json_member_str(text, "type");
    let src = read_json_member_str(text, "src");
    proof {
        assert forall|s: Seq<char>, d: Seq<char>, k: Seq<char>|
            text@ == #[trigger] envelope(s, d, k) implies json_member_str(text@, "data"@) == Some(
            Some(d),
        ) && json_member_str(text@, "type"@) == Some(Some(k)) && json_member_str(text@, "src"@)
            == Some(Some(s)) by {
            lemma_envelope_keys(s, d, k);
            assert(text@ == json_object_text(envelope_fields(s, d, k)));
        }
    }
    match (data, kind, src) {
        (Some(Some(d)), Some(Some(k)), Some(Some(s))) => Some(
            Job { origin: Origin::Http, data: d, kind: k, reply_to: s },
        ),
        _ => None,
    }
}

/// Turns a request taken from Redis into a job: its message is the data; it is
/// a `publish` answered on its reply channel when that is not empty, else a
/// `dispatch`.
pub fn job_from_redis(request: RequestRedis) -> (job: Job)
    ensures
        job.origin is Redis,
        job.data == request.message,
        job.reply_to == request.reply_channel,
        job.kind@ == if request.reply_channel@.len() > 0 {
            "publish"@
        } else {
            "dispatch"@
        },
{
    let kind = if request.expects_reply() {
        String::from_str("publish")
    } else {
        String::from_str("dispatch")
    };
    Job { origin: Origin::Redis, data: request.message, kind, reply_to: request.reply_channel }
}

/// What follows once a handler has run a job.
#[derive(Debug, Clone, PartialEq, Eq)]
pub enum ReplyAction {
    /// Nothing is sent.
    Nothing,
    /// The job failed; this line is reported.
    Report(String),
    /// The answer is dispatched over the bus from the handler to `to`.
    ToBus { from: String, to: String, data: String },
    /// The answer is dispatched over Redis to `channel`.
    ToRedis { channel: String, data: String },
}

/// The line reported when handler `name` failed with `error`.
pub open spec fn failure_line(name: Seq<char>, error: Seq<char>) -> Seq<char> {
    "Errored while running handler "@ + name + ": "@ + error
}

/// A failure is reported with the whole of the handler's name and the whole
/// of its error: the line starts with `Errored while running handler ` and
/// the name, and ends with `: ` and the error.
pub proof fn lemma_failure_line_keeps_name_and_error(name: Seq<char>, error: Seq<char>)
    ensures
        failure_line(name, error).len() == "Errored while running handler "@.len() + name.len() + 2
            + error.len(),
        failure_line(name, error).subrange(0, ("Errored while running handler "@.len() + name.len()) as int)
            == "Errored while running handler "@ + name,
        failure_line(name, error).subrange(
            failure_line(name, error).len() - error.len(),
            failure_line(name, error).len() as int,
        ) == error,
{
    reveal_strlit(": ");
    let p = "Errored while running handler "@ + name;
    let l = failure_line(name, error);
    assert(l =~= p + ": "@ + error);
    assert(l.subrange(0, p.len() as int) =~= p);
    assert(l.subrange(l.len() - error.len(), l.len() as int) =~= error);
}

/// Decides what handler `handler_name` does with the outcome of `job`: a
/// failure is reported; the answer to a `publish` is dispatched back where it
/// came from (over the bus or over Redis); anything else sends nothing.
pub fn reply_action(handler_name: &str, job: Job, outcome: Result<String, String>) -> (action:
    ReplyAction)
    ensures
        match outcome {
            Err(e) => action matches ReplyAction::Report(line) && line@ == failure_line(
                handler_name@,
                e@,
            ),
            Ok(v) => if job.kind@ == "publish"@ {
                match job.origin {
                    Origin::Http => action matches ReplyAction::ToBus { from, to, data } && from@
                        == handler_name@ && to == job.reply_to && data == v,
                    Origin::Redis => action matches ReplyAction::ToRedis { channel, data }
                        && channel == job.reply_to && data == v,
                }
            } else {
                action is Nothing
            },
        },
{
    match outcome {
        Err(e) => {
            let mut line = String::from_str("Errored while running handler ");
            line.append(handler_name);
            line.append(": ");
            line.append(e.as_str());
            ReplyAction::Report(line)
        },
        Ok(v) => {
            if same_text(job.kind.as_str(), "publish") {
                match job.origin {
                    Origin::Http => ReplyAction::ToBus {
                        from: handler_name.to_owned(),
                        to: job.reply_to,
                        data: v,
                    },
                    Origin::Redis => ReplyAction::ToRedis { channel: job.reply_to, data: v },
                }
            } else {
                ReplyAction::Nothing
            }
        },
    }
}

/// The replicas of one handler: which of them stand by, ready for a job.
/// Replicas are numbered `0 .. capacity`.
pub struct ReplicaPool {
    standby: Vec<i32>,
    capacity: i32,
}

/// The numbers of `ids`, as integers.
pub open spec fn id_values(ids: Seq<i32>) -> Seq<int> {
    ids.map_values(|x: i32| x as int)
}

impl ReplicaPool {
    /// How many replicas the handler has.
    pub closed spec fn capacity(&self) -> nat {
        if self.capacity > 0 {
            self.capacity as nat
        } else {
            0
        }
    }

    /// The replicas standing by, the next one to be taken last.
    pub closed spec fn idle(&self) -> Seq<int> {
        id_values(self.standby@)
    }

    /// The pool is consistent: each replica stands by at most once, and only
    /// replicas that exist stand by.
    pub open spec fn wf(&self) -> bool {
        &&& self.idle().no_duplicates()
        &&& forall|i: int| 0 <= i < self.idle().len() ==> 0 <= #[trigger] self.idle()[i] < self.capacity()
    }

    /// Replica `id` exists and is running a job.
    pub open spec fn busy(&self, id: int) -> bool {
        0 <= id < self.capacity() && !self.idle().contains(id)
    }

    /// The replicas running a job.
    pub open spec fn running(&self) -> Set<int> {
        Set::new(|id: int| self.busy(id))
    }

    /// A pool of `n` replicas (none when `n` is not positive), all standing by:
    /// `0, 1, .., n - 1`, so replica `n - 1` is taken first.
    pub fn new(n: i32) -> (pool: ReplicaPool)
        ensures
            pool.wf(),
            pool.capacity() == if n > 0 {
                n as nat
            } else {
                0
            },
            pool.idle() == Seq::new(pool.capacity(), |i: int| i),
    {
        let mut standby: Vec<i32> = Vec::new();
        let mut i: i32 = 0;
        while i < n
            invariant
                0 <= i,
                n > 0 ==> i <= n,
                n <= 0 ==> i == 0,
                id_values(standby@) =~= Seq::new(i as nat, |k: int| k),
            decreases n - i,
        {
            let ghost before = standby@;
            standby.push(i);
            assert(id_values(standby@) =~= id_values(before).push(i as int));
            i = i + 1;
        }
        let ghost cap: nat = if n > 0 {
            n as nat
        } else {
            0
        };
        let pool = ReplicaPool { standby, capacity: if n > 0 { n } else { 0 } };
        assert(pool.idle() =~= Seq::new(cap, |k: int| k));
        pool
    }

    /// Takes the standby replica that stood by last, if any.
    pub fn acquire(&mut self) -> (id: Option<i32>)
        requires
            old(self).wf(),
        ensures
            final(self).wf(),
            final(self).capacity() == old(self).capacity(),
            old(self).idle().len() == 0 ==> id is None && final(self).idle() == old(self).idle(),
            old(self).idle().len() > 0 ==> (id matches Some(r) && r == old(self).idle().last()
                && final(self).idle() == old(self).idle().drop_last() && !old(self).busy(r as int)
                && final(self).busy(r as int)),
            id is None ==> final(self).running() == old(self).running(),
            id matches Some(r) ==> final(self).running() == old(self).running().insert(r as int),
    {
        let id = self.standby.pop();
        proof {
            if old(self).idle().len() > 0 {
                assert(self.idle() =~= old(self).idle().drop_last());
                let r = old(self).idle().last();
                assert forall|k: int| 0 <= k < self.idle().len() implies self.idle()[k] != r by {
                    assert(old(self).idle()[k] != old(self).idle()[old(self).idle().len() - 1]);
                }
                assert(old(self).idle() =~= self.idle().push(r));
                assert forall|x: int| x != r implies (self.idle().contains(x) <==> old(self).idle().contains(
                    x,
                )) by {
                    if old(self).idle().contains(x) {
                        let k = choose|k: int| 0 <= k < old(self).idle().len() && old(self).idle()[k] == x;
                        assert(self.idle()[k] == x);
                    }
                }
                assert(old(self).idle().contains(r));
                assert(self.running() =~= old(self).running().insert(r));
            } else {
                assert(self.running() =~= old(self).running());
            }
        }
        id
    }

    /// Whether replica `id` exists and is running a job.
    pub fn is_busy(&self, id: i32) -> (answer: bool)
        requires
            self.wf(),
        ensures
            answer == self.busy(id as int),
    {
        if id < 0 {
            return false;
        }
        let len = self.standby.len();
        let mut k: usize = 0;
        while k < len
            invariant
                len == self.standby@.len(),
                0 <= k <= len,
                forall|j: int| 0 <= j < k ==> self.idle()[j] != id as int,
            decreases len - k,
        {
            if self.standby[k] == id {
                assert(self.idle()[k as int] == id as int);
                return false;
            }
            k = k + 1;
        }
        id < self.capacity
    }

    /// Puts replica `id` back on standby once its job is done; it is the next
    /// to be taken.
    pub fn release(&mut self, id: i32)
        requires
            old(self).wf(),
            old(self).busy(id as int),
        ensures
            final(self).wf(),
            final(self).capacity() == old(self).capacity(),
            final(self).idle() == old(self).idle().push(id as int),
            final(self).running() == old(self).running().remove(id as int),
    {
        self.standby.push(id);
        assert(self.idle() =~= old(self).idle().push(id as int));
        assert(self.idle()[self.idle().len() - 1] == id as int);
        assert forall|x: int| x != id as int implies (self.idle().contains(x) <==> old(self).idle().contains(
            x,
        )) by {
            if old(self).idle().contains(x) {
                let k = choose|k: int| 0 <= k < old(self).idle().len() && old(self).idle()[k] == x;
                assert(self.idle()[k] == x);
            }
            if self.idle().contains(x) {
                let k = choose|k: int| 0 <= k < self.idle().len() && self.idle()[k] == x;
                assert(old(self).idle()[k] == x);
            }
        }
        assert(self.running() =~= old(self).running().remove(id as int));
    }
}

/// Never more replicas of a handler run at once than it has: in a consistent
/// pool the running replicas and the ones standing by together make up the
/// capacity, so at most `capacity()` jobs hold a replica.
pub proof fn lemma_replicas_bounded(pool: ReplicaPool)
    requires
        pool.wf(),
    ensures
        pool.running().finite(),
        pool.running().len() + pool.idle().len() == pool.capacity(),
        pool.running().len() <= pool.capacity(),
        pool.idle().len() <= pool.capacity(),
{
    let s = pool.idle();
    let range = vstd::set_lib::set_int_range(0, pool.capacity() as int);
    s.unique_seq_to_set();
    vstd::set_lib::lemma_int_range(0, pool.capacity() as int);
    assert(s.to_set().subset_of(range));
    vstd::set_lib::lemma_len_subset(s.to_set(), range);
    assert(pool.running() =~= range.difference(s.to_set()));
    assert(range.intersect(s.to_set()) =~= s.to_set());
    vstd::set_lib::lemma_set_difference_len(range, s.to_set());
}

/// Taking a standby replica and putting it back once its job is done leaves
/// the pool as it was: the same replicas stand by, in the same order.
pub proof fn lemma_acquire_then_release(p0: ReplicaPool, p1: ReplicaPool, p2: ReplicaPool, id: int)
    requires
        p0.wf(),
        p0.idle().len() > 0,
        id == p0.idle().last(),
        p1.capacity() == p0.capacity(),
        p1.idle() == p0.idle().drop_last(),
        p2.capacity() == p1.capacity(),
        p2.idle() == p1.idle().push(id),
    ensures
        p2.capacity() == p0.capacity(),
        p2.idle() == p0.idle(),
{
    assert(p2.idle() =~= p0.idle());
}

/// The reply a Redis publish gives when no Redis URL is configured.
pub open spec fn no_redis_url_text() -> Seq<char> {
    "No redis url provided"@
}

/// The reply a Redis publish gives when its answer does not come in time.
pub open spec fn redis_timeout_text() -> Seq<char> {
    "Timeout"@
}

/// How long a Redis publish waits for its answer when no timeout is given,
/// in milliseconds.
pub const DEFAULT_REDIS_WAIT_MILLIS: u64 = 10000;

/// The Redis URL stored in the shared state, if it is usable: present and not
/// empty.
pub fn configured_redis_url(url: Option<String>) -> (usable: Option<String>)
    ensures
        usable == configured_redis_url_spec(url),
        url is Some && url.unwrap()@.len() > 0 ==> usable == url,
        url is Some && url.unwrap()@.len() == 0 ==> usable is None,
        url is None ==> usable is None,
{
    match url {
        Some(u) => if u.as_str().unicode_len() > 0 {
            Some(u)
        } else {
            None
        },
        None => None,
    }
}

/// Whatever its form, a stored Redis URL that is not empty is used as it is
/// (for publish, dispatch and subscribe alike); only a missing or empty URL
/// counts as not configured.
pub proof fn lemma_stored_redis_url_is_used(url: Option<String>)
    ensures
        url is Some && url.unwrap()@.len() > 0 ==> configured_redis_url_spec(url) == url,
        url is Some && url.unwrap()@.len() == 0 ==> configured_redis_url_spec(url) is None,
        url is None ==> configured_redis_url_spec(url) is None,
{
}

/// What a Redis publish does.
#[derive(Debug, Clone, PartialEq, Eq)]
pub enum RedisPublishPlan {
    /// Answer at once with this text.
    Answer(String),
    /// Subscribe to the request's reply channel, publish the request to
    /// `channel` on the server at `url`, and wait up to `wait_millis` for the
    /// answer.
    Send { url: String, channel: String, request: RequestRedis, wait_millis: u64 },
}

/// Plans a Redis publish of `message` from handler `handler_name` to
/// `channel`, given the Redis URL stored in the shared state and the caller's
/// timeout in milliseconds.
pub fn plan_publish_redis(
    url: Option<String>,
    handler_name: &str,
    channel: String,
    message: String,
    timeout_millis: Option<u64>,
) -> (plan: RedisPublishPlan)
    ensures
        match configured_redis_url_spec(url) {
            None => plan matches RedisPublishPlan::Answer(text) && text@ == no_redis_url_text(),
            Some(u) => plan matches RedisPublishPlan::Send { url: pu, channel: pc, request, wait_millis }
                && pu == u && pc == channel && request.message == message
                && request.reply_channel@ == handler_name@ + "_"@ + request.id@ && is_uuid_v4_text(
                request.id@,
            ) && wait_millis == match timeout_millis {
                Some(t) => t,
                None => DEFAULT_REDIS_WAIT_MILLIS,
            },
        },
        url is Some && url.unwrap()@.len() > 0 ==> (plan matches RedisPublishPlan::Send {
            url: pu,
            channel: pc,
            ..
        } && pu == url.unwrap() && pc == channel),
{
    proof {
        lemma_stored_redis_url_is_used(url);
    }
    match configured_redis_url(url) {
        None => RedisPublishPlan::Answer(String::from_str("No redis url provided")),
        Some(u) => {
            let wait_millis = match timeout_millis {
                Some(t) => t,
                None => DEFAULT_REDIS_WAIT_MILLIS,
            };
            RedisPublishPlan::Send {
                url: u,
                channel,
                request: RequestRedis::for_publish(handler_name, message),
                wait_millis,
            }
        },
    }
}

/// The stored Redis URL, if usable (the specification of
/// `configured_redis_url`).
pub open spec fn configured_redis_url_spec(url: Option<String>) -> Option<String> {
    match url {
        Some(u) => if u@.len() > 0 {
            Some(u)
        } else {
            None
        },
        None => None,
    }
}

/// The answer of a Redis publish: the payload received, or the timeout note
/// when nothing arrived in time.
pub fn redis_publish_answer(payload: Option<String>) -> (answer: String)
    ensures
        answer@ == match payload {
            Some(p) => p@,
            None => redis_timeout_text(),
        },
{
    match payload {
        Some(p) => p,
        None => String::from_str("Timeout"),
    }
}

/// Plans a Redis dispatch of `message`: the server URL and a request that
/// wants no answer, or nothing at all when no usable URL is stored.
pub fn plan_dispatch_redis(url: Option<String>, message: String) -> (plan: Option<(String, RequestRedis)>)
    ensures
        match configured_redis_url_spec(url) {
            None => plan is None,
            Some(u) => plan matches Some((pu, request)) && pu == u && request.message == message
                && request.reply_channel@ == Seq::<char>::empty() && is_uuid_v4_text(request.id@),
        },
        url is Some && url.unwrap()@.len() > 0 ==> (plan matches Some((pu, _)) && pu == url.unwrap()),
{
    proof {
        lemma_stored_redis_url_is_used(url);
    }
    match configured_redis_url(url) {
        None => None,
        Some(u) => Some((u, RequestRedis::for_dispatch(message))),
    }
}

/// The server a Redis subscription connects to, or the error it fails with
/// when no usable URL is stored.
pub fn subscription_url(url: Option<String>) -> (target: Result<String, String>)
    ensures
        match configured_redis_url_spec(url) {
            None => target matches Err(e) && e@ == no_redis_url_text(),
            Some(u) => target == Ok::<String, String>(u),
        },
        url is Some && url.unwrap()@.len() > 0 ==> target == Ok::<String, String>(url.unwrap()),
{
    proof {
        lemma_stored_redis_url_is_used(url);
    }
    match configured_redis_url(url) {
        None => Err(String::from_str("No redis url provided")),
        Some(u) => Ok(u),
    }
}

} // verus!
