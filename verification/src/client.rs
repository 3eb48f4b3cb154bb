//! Shaping the requests that the gRPC client sends: the sidecar address,
//! jobs, conversation inputs, state items, and the chunked requests of the
//! streaming encrypt and decrypt calls.

use std::collections::HashMap;

use vstd::prelude::*;

use crate::error::Error;
use crate::proto_common::{Any, StateItem, StreamPayload};
use crate::text::{append_u64, nat_digits, parse_u16, parse_unsigned_at_most, str_eq};

verus! {

/// The port that `DAPR_GRPC_PORT`'s value names, as `str::parse::<u16>` reads it.
pub open spec fn spec_port(v: Seq<char>) -> Option<u16> {
    match parse_unsigned_at_most(v, u16::MAX as nat) {
        Some(p) => Some(p as u16),
        None => None,
    }
}

/// Reads a port number as `str::parse::<u16>` does.
pub fn parse_port(v: &str) -> (r: Option<u16>)
    ensures
        r == spec_port(v@),
{
    parse_u16(v)
}

/// The port `Client::connect_with_port` accepts: a port number between 1
/// and 65535.
pub open spec fn spec_connect_port(v: Seq<char>) -> Option<u16> {
    match spec_port(v) {
        Some(p) => if p >= 1 {
            Some(p)
        } else {
            None
        },
        None => None,
    }
}

/// Reads the port given to `Client::connect_with_port`: `None` unless it is
/// a number between 1 and 65535.
pub fn parse_connect_port(v: &str) -> (r: Option<u16>)
    ensures
        r == spec_connect_port(v@),
{
    match parse_port(v) {
        Some(p) => if p >= 1 {
            Some(p)
        } else {
            None
        },
        None => None,
    }
}

/// `addr:port`, with the port in decimal.
pub open spec fn host_port_text(addr: Seq<char>, port: u16) -> Seq<char> {
    addr + ":"@ + nat_digits(port as nat)
}

/// Joins an address and a port as `addr:port`.
pub fn join_address_port(addr: &str, port: u16) -> (r: String)
    ensures
        r@ == host_port_text(addr@, port),
{
    let mut s = String::from_str(addr);
    s.append(":");
    append_u64(&mut s, port as u64);
    s
}

/// The address `Client::connect` dials: `addr` joined with the port in
/// `DAPR_GRPC_PORT` (`port_var`, `None` when unset). An unset variable is
/// [`Error::VarError`]; a value that is not a `u16` is
/// [`Error::ParseIntError`].
pub fn connect_address(addr: &str, port_var: Option<&str>) -> (r: Result<String, Error>)
    ensures
        match port_var {
            None => r matches Err(Error::VarError),
            Some(v) => match spec_port(v@) {
                Some(p) => r matches Ok(s) && s@ == host_port_text(addr@, p),
                None => r matches Err(Error::ParseIntError),
            },
        },
{
    match port_var {
        None => Err(Error::VarError),
        Some(v) => match parse_port(v) {
            Some(p) => Ok(join_address_port(addr, p)),
            None => Err(Error::ParseIntError),
        },
    }
}

/// A job scheduled with the Dapr scheduler.
#[derive(Clone, Debug, PartialEq, Eq, Default)]
pub struct Job {
    /// When the job runs (cron expression or period).
    pub schedule: Option<String>,
    /// The payload handed to the job.
    pub data: Option<Any>,
    /// The job's unique name.
    pub name: String,
    /// How long the job lives.
    pub ttl: Option<String>,
    /// How often the job repeats.
    pub repeats: Option<u32>,
    /// When the job first runs.
    pub due_time: Option<String>,
}

/// Builds a [`Job`].
#[derive(Clone, Debug)]
pub struct JobBuilder {
    job: Job,
}

impl View for JobBuilder {
    type V = Job;

    /// The job that `build` returns.
    closed spec fn view(&self) -> Job {
        self.job
    }
}

impl JobBuilder {
    /// A job called `name` with nothing else set.
    pub fn new(name: &str) -> (r: JobBuilder)
        ensures
            r@.name@ == name@,
            r@.schedule is None,
            r@.data is None,
            r@.ttl is None,
            r@.repeats is None,
            r@.due_time is None,
    {
        JobBuilder {
            job: Job {
                schedule: None,
                data: None,
                name: String::from_str(name),
                ttl: None,
                repeats: None,
                due_time: None,
            },
        }
    }

    /// Sets when the job runs.
    pub fn with_schedule(self, schedule: &str) -> (r: JobBuilder)
        ensures
            r@ == (Job { schedule: Some(r@.schedule->0), ..self@ }),
            r@.schedule matches Some(s) && s@ == schedule@,
    {
        JobBuilder { job: Job { schedule: Some(String::from_str(schedule)), ..self.job } }
    }

    /// Sets the payload.
    pub fn with_data(self, data: Any) -> (r: JobBuilder)
        ensures
            r@ == (Job { data: Some(data), ..self@ }),
    {
        JobBuilder { job: Job { data: Some(data), ..self.job } }
    }

    /// Sets how long the job lives.
    pub fn with_ttl(self, ttl: &str) -> (r: JobBuilder)
        ensures
            r@ == (Job { ttl: Some(r@.ttl->0), ..self@ }),
            r@.ttl matches Some(s) && s@ == ttl@,
    {
        JobBuilder { job: Job { ttl: Some(String::from_str(ttl)), ..self.job } }
    }

    /// Sets how often the job repeats.
    pub fn with_repeats(self, repeats: u32) -> (r: JobBuilder)
        ensures
            r@ == (Job { repeats: Some(repeats), ..self@ }),
    {
        JobBuilder { job: Job { repeats: Some(repeats), ..self.job } }
    }

    /// Sets when the job first runs.
    pub fn with_due_time(self, due_time: &str) -> (r: JobBuilder)
        ensures
            r@ == (Job { due_time: Some(r@.due_time->0), ..self@ }),
            r@.due_time matches Some(s) && s@ == due_time@,
    {
        JobBuilder { job: Job { due_time: Some(String::from_str(due_time)), ..self.job } }
    }

    /// The job.
    pub fn build(self) -> (r: Job)
        ensures
            r == self@,
    {
        self.job
    }
}

/// A request to invoke a method of an actor.
#[derive(Clone, Debug, Default)]
pub struct InvokeActorRequest {
    /// The actor's type.
    pub actor_type: String,
    /// The actor's id.
    pub actor_id: String,
    /// The method to invoke.
    pub method: String,
    /// The method's input, as JSON.
    pub data: Vec<u8>,
    /// Metadata sent with the call, as key and value pairs.
    pub metadata: Vec<(String, String)>,
}

/// The map that metadata pairs stand for: each key with the value of its
/// last pair, as inserting the pairs into a map in order leaves it.
pub open spec fn pairs_map(pairs: Seq<(String, String)>) -> Map<Seq<char>, Seq<char>>
    decreases pairs.len(),
{
    if pairs.len() == 0 {
        Map::empty()
    } else {
        pairs_map(pairs.drop_last()).insert(pairs.last().0@, pairs.last().1@)
    }
}

/// Whether no two pairs share a key.
pub open spec fn keys_distinct(pairs: Seq<(String, String)>) -> bool {
    forall|a: int, b: int| 0 <= a < b < pairs.len() ==> pairs[a].0@ != pairs[b].0@
}

/// The metadata pairs handed to a call, none when not given.
pub open spec fn given_pairs(metadata: Option<Vec<(String, String)>>) -> Seq<(String, String)> {
    match metadata {
        Some(m) => m@,
        None => Seq::empty(),
    }
}

/// The request `Client::invoke_actor` sends: the actor, the method, the
/// input already serialized to JSON, and the caller's metadata (none when
/// not given) with `Content-Type` set to `application/json`. The metadata
/// is held as key and value pairs; a caller's entry for `Content-Type` is
/// replaced, the other entries are kept in order, and keys that were
/// distinct stay distinct.
pub fn invoke_actor_request(
    actor_type: String,
    actor_id: String,
    method: String,
    data: Vec<u8>,
    metadata: Option<Vec<(String, String)>>,
) -> (r: InvokeActorRequest)
    ensures
        r.actor_type == actor_type,
        r.actor_id == actor_id,
        r.method == method,
        r.data == data,
        pairs_map(r.metadata@) == pairs_map(given_pairs(metadata)).insert(
            "Content-Type"@,
            "application/json"@,
        ),
        keys_distinct(given_pairs(metadata)) ==> keys_distinct(r.metadata@),
{
    proof {
        reveal_strlit("Content-Type");
        reveal_strlit("application/json");
    }
    let ghost ct = "Content-Type"@;
    let mut rest: Vec<(String, String)> = match metadata {
        Some(m) => m,
        None => Vec::new(),
    };
    let ghost all = rest@;
    assert(all == given_pairs(metadata));
    let n = rest.len();
    let mut out: Vec<(String, String)> = Vec::new();
    let ghost mut idx: Seq<int> = Seq::empty();
    let mut i: usize = 0;
    assert(all.take(0) =~= Seq::<(String, String)>::empty());
    assert(pairs_map(out@) =~= pairs_map(all.take(0)).remove(ct));
    while i < n
        invariant
            n == all.len(),
            i <= n,
            rest@ == all.skip(i as int),
            ct == "Content-Type"@,
            pairs_map(out@) == pairs_map(all.take(i as int)).remove(ct),
            idx.len() == out@.len(),
            forall|k: int| 0 <= k < idx.len() ==> 0 <= #[trigger] idx[k] < i,
            forall|a: int, b: int| 0 <= a < b < idx.len() ==> idx[a] < idx[b],
            forall|k: int| 0 <= k < out@.len() ==> (#[trigger] out@[k]).0@ == all[idx[k]].0@,
            forall|k: int| 0 <= k < out@.len() ==> (#[trigger] out@[k]).0@ != ct,
        decreases n - i,
    {
        assert(all.skip(i as int)[0] == all[i as int]);
        let (k, v) = rest.remove(0);
        assert(all.skip(i as int).remove(0) =~= all.skip(i + 1));
        let ghost before = pairs_map(all.take(i as int));
        assert(all.take(i + 1).drop_last() =~= all.take(i as int));
        assert(pairs_map(all.take(i + 1)) == before.insert(k@, v@));
        if str_eq(k.as_str(), "Content-Type") {
            assert(before.insert(k@, v@).remove(ct) =~= before.remove(ct));
        } else {
            let ghost old_out = out@;
            out.push((k, v));
            proof {
                assert(out@.drop_last() =~= old_out);
                assert(pairs_map(out@) == pairs_map(old_out).insert(k@, v@));
                assert(before.remove(ct).insert(k@, v@) =~= before.insert(k@, v@).remove(ct));
                idx = idx.push(i as int);
                assert forall|k2: int| 0 <= k2 < out@.len() implies (#[trigger] out@[k2]).0@
                    == all[idx[k2]].0@ by {
                    if k2 < old_out.len() {
                        assert(out@[k2] == old_out[k2]);
                    }
                }
                assert forall|k2: int| 0 <= k2 < out@.len() implies (#[trigger] out@[k2]).0@
                    != ct by {
                    if k2 < old_out.len() {
                        assert(out@[k2] == old_out[k2]);
                    }
                }
            }
        }
        i = i + 1;
    }
    assert(all.take(n as int) =~= all);
    let ghost old_out = out@;
    out.push((String::from_str("Content-Type"), String::from_str("application/json")));
    proof {
        assert(out@.drop_last() =~= old_out);
        assert(pairs_map(all).remove(ct).insert(ct, "application/json"@) =~= pairs_map(all).insert(
            ct,
            "application/json"@,
        ));
        if keys_distinct(all) {
            assert forall|a: int, b: int| 0 <= a < b < out@.len() implies out@[a].0@
                != out@[b].0@ by {
                assert(out@[a] == old_out[a]);
                if b < old_out.len() {
                    assert(out@[b] == old_out[b]);
                    assert(idx[a] < idx[b]);
                    assert(old_out[a].0@ == all[idx[a]].0@);
                    assert(old_out[b].0@ == all[idx[b]].0@);
                } else {
                    assert(old_out[a].0@ != ct);
                }
            }
        }
    }
    InvokeActorRequest { actor_type, actor_id, method, data, metadata: out }
}

/// An input to a conversation with a language model.
#[derive(Clone, Debug, PartialEq, Eq, Default)]
pub struct ConversationInput {
    /// The message.
    pub content: String,
    /// The role of the message's author.
    pub role: Option<String>,
    /// Whether personal information is scrubbed from the message.
    pub scrub_pii: Option<bool>,
}

/// Builds a [`ConversationInput`].
pub struct ConversationInputBuilder {
    content: String,
    role: Option<String>,
    scrub_pii: Option<bool>,
}

impl ConversationInputBuilder {
    /// The input that `build` returns.
    pub closed spec fn spec_input(&self) -> ConversationInput {
        ConversationInput { content: self.content, role: self.role, scrub_pii: self.scrub_pii }
    }

    /// An input holding `message`, with no role and no scrubbing setting.
    pub fn new(message: &str) -> (r: ConversationInputBuilder)
        ensures
            r.spec_input().content@ == message@,
            r.spec_input().role is None,
            r.spec_input().scrub_pii is None,
    {
        ConversationInputBuilder { content: String::from_str(message), role: None, scrub_pii: None }
    }

    /// The input.
    pub fn build(self) -> (r: ConversationInput)
        ensures
            r == self.spec_input(),
    {
        ConversationInput { content: self.content, role: self.role, scrub_pii: self.scrub_pii }
    }
}

impl StateItem {
    /// A state item holding `value` under `key`, with no etag, metadata or
    /// options.
    pub fn from_pair(key: String, value: Vec<u8>) -> (r: StateItem)
        ensures
            r.key == key,
            r.value == value,
            r.etag is None,
            r.metadata@ == Map::<String, String>::empty(),
            r.options is None,
    {
        StateItem { key, value, etag: None, metadata: HashMap::new(), options: None }
    }
}

/// One request of a streaming encrypt or decrypt call: the options, which
/// only the first request carries, and a chunk of data.
#[derive(Clone, Debug)]
pub struct ChunkRequest<O> {
    /// The call's options; only on the first request.
    pub options: Option<O>,
    /// The chunk of data.
    pub payload: Option<StreamPayload>,
}

/// Whether `requests` sends `payloads` in order, with `options` on the first
/// request and on no other.
pub open spec fn chunked_as<O>(
    requests: Seq<ChunkRequest<O>>,
    payloads: Seq<StreamPayload>,
    options: O,
) -> bool {
    &&& requests.len() == payloads.len()
    &&& forall|i: int| 0 <= i < requests.len() ==> (#[trigger] requests[i]).payload == Some(payloads[i])
    &&& forall|i: int|
        0 <= i < requests.len() ==> (#[trigger] requests[i]).options == if i == 0 {
            Some(options)
        } else {
            None
        }
}

/// The requests that send `payloads` in order, `options` riding on the
/// first.
pub fn chunk_requests<O>(payloads: Vec<StreamPayload>, options: O) -> (r: Vec<ChunkRequest<O>>)
    ensures
        chunked_as(r@, payloads@, options),
{
    let mut out: Vec<ChunkRequest<O>> = Vec::new();
    let mut opts = Some(options);
    let mut rest = payloads;
    let ghost all = rest@;
    let n = rest.len();
    let mut i: usize = 0;
    while i < n
        invariant
            n == all.len(),
            i <= n,
            out@.len() == i,
            rest@ == all.skip(i as int),
            opts == if i == 0 {
                Some(options)
            } else {
                None::<O>
            },
            forall|k: int| 0 <= k < i ==> (#[trigger] out@[k]).payload == Some(all[k]),
            forall|k: int|
                0 <= k < i ==> (#[trigger] out@[k]).options == if k == 0 {
                    Some(options)
                } else {
                    None
                },
        decreases n - i,
    {
        assert(all.skip(i as int)[0] == all[i as int]);
        let p = rest.remove(0);
        assert(all.skip(i as int).remove(0) =~= all.skip(i + 1));
        let o = opts.take();
        out.push(ChunkRequest { options: o, payload: Some(p) });
        i = i + 1;
    }
    out
}

/// The requests of a streaming encrypt call: each chunk of plain data in
/// order, numbered from 0 up by one per chunk, `options` riding on the
/// first.
pub fn encrypt_requests<O>(chunks: Vec<Vec<u8>>, options: O) -> (r: Vec<ChunkRequest<O>>)
    ensures
        r@.len() == chunks@.len(),
        forall|i: int|
            0 <= i < r@.len() ==> (#[trigger] r@[i]).payload == Some(
                StreamPayload { data: chunks@[i], seq: i as u64 },
            ),
        forall|i: int|
            0 <= i < r@.len() ==> (#[trigger] r@[i]).options == if i == 0 {
                Some(options)
            } else {
                None
            },
{
    let mut payloads: Vec<StreamPayload> = Vec::new();
    let mut rest = chunks;
    let ghost all = rest@;
    let n = rest.len();
    let mut i: usize = 0;
    while i < n
        invariant
            n == all.len(),
            i <= n,
            payloads@.len() == i,
            rest@ == all.skip(i as int),
            forall|k: int|
                0 <= k < i ==> #[trigger] payloads@[k] == (StreamPayload {
                    data: all[k],
                    seq: k as u64,
                }),
        decreases n - i,
    {
        assert(all.skip(i as int)[0] == all[i as int]);
        let d = rest.remove(0);
        assert(all.skip(i as int).remove(0) =~= all.skip(i + 1));
        payloads.push(StreamPayload { data: d, seq: i as u64 });
        i = i + 1;
    }
    chunk_requests(payloads, options)
}

/// The requests of a streaming decrypt call: the encrypted chunks in order,
/// `options` riding on the first.
pub fn decrypt_requests<O>(encrypted: Vec<StreamPayload>, options: O) -> (r: Vec<ChunkRequest<O>>)
    ensures
        chunked_as(r@, encrypted@, options),
{
    chunk_requests(encrypted, options)
}

/// A port's decimal text reads back as that port; as a port to connect to it
/// is accepted exactly when it is not 0.
pub proof fn lemma_port_text_round_trip(p: u16)
    ensures
        spec_port(nat_digits(p as nat)) == Some(p),
        spec_connect_port(nat_digits(p as nat)) == if p >= 1 {
            Some(p)
        } else {
            None::<u16>
        },
{
    crate::text::lemma_parse_digits(p as nat, u16::MAX as nat);
}

} // verus!
