//! Errors of the worker connection and the decisions of its reader.
use vstd::prelude::*;
use vstd::std_specs::convert::FromSpecImpl;

use crate::protocol::{ProtocolErrorParams, RpcErrorPayload};
use crate::text::{
    append_decimal, append_signed, decimal_digits, duration_debug_text, duration_text, joined, signed_digits,
};
use vstd::string::StringExecFns;
use std::collections::HashMap;
use vstd::std_specs::iter::IteratorSpec;

verus! {

/// Why a request to, or the connection with, the browser worker failed.
#[derive(Debug, Clone, PartialEq, Eq)]
pub enum TransportError {
    Io(String),
    WorkerExited,
    Disconnected,
    InvalidFrame(String),
    FrameTooLarge { limit: usize },
    Json(String),
    Timeout { timeout_ms: u64 },
    LockPoisoned,
    Rpc { code: i32, message: String, data: Option<String> },
}

impl From<RpcErrorPayload> for TransportError {
    /// An error answer of the worker becomes `Rpc` with the same fields.
    fn from(value: RpcErrorPayload) -> (r: Self) {
        TransportError::Rpc { code: value.code, message: value.message, data: value.data }
    }
}

impl FromSpecImpl<RpcErrorPayload> for TransportError {
    open spec fn obeys_from_spec() -> bool {
        true
    }

    open spec fn from_spec(value: RpcErrorPayload) -> TransportError {
        TransportError::Rpc { code: value.code, message: value.message, data: value.data }
    }
}

/// How an error of the worker connection reads.
pub open spec fn transport_message(e: TransportError) -> Seq<char> {
    match e {
        TransportError::Io(m) => "I/O error: "@ + m@,
        TransportError::WorkerExited => "worker exited"@,
        TransportError::Disconnected => "worker connection closed"@,
        TransportError::InvalidFrame(m) => "invalid protocol frame: "@ + m@,
        TransportError::FrameTooLarge { limit } => "protocol frame exceeds the configured limit of "@
            + decimal_digits(limit as nat) + " bytes"@,
        TransportError::Json(m) => "invalid JSON: "@ + m@,
        TransportError::Timeout { timeout_ms } => "request timed out after "@ + duration_debug_text(
            timeout_ms,
        ),
        TransportError::LockPoisoned => "request lock poisoned"@,
        TransportError::Rpc { code, message, .. } => "worker error "@ + signed_digits(code as int) + ": "@
            + message@,
    }
}

impl TransportError {
    /// The error as it is shown.
    pub fn message(&self) -> (r: String)
        ensures
            r@ == transport_message(*self),
    {
        match self {
            TransportError::Io(m) => joined("I/O error: ", m.as_str()),
            TransportError::WorkerExited => "worker exited".to_string(),
            TransportError::Disconnected => "worker connection closed".to_string(),
            TransportError::InvalidFrame(m) => joined("invalid protocol frame: ", m.as_str()),
            TransportError::FrameTooLarge { limit } => {
                let mut text = "protocol frame exceeds the configured limit of ".to_string();
                append_decimal(&mut text, *limit as u64);
                text.append(" bytes");
                text
            },
            TransportError::Json(m) => joined("invalid JSON: ", m.as_str()),
            TransportError::Timeout { timeout_ms } => joined(
                "request timed out after ",
                duration_text(*timeout_ms).as_str(),
            ),
            TransportError::LockPoisoned => "request lock poisoned".to_string(),
            TransportError::Rpc { code, message, .. } => {
                let mut text = "worker error ".to_string();
                append_signed(&mut text, *code as i64);
                text.append(": ");
                text.append(message.as_str());
                text
            },
        }
    }
}

/// `serde_json::Value`: a JSON document carried through unread.
#[verifier::external_type_specification]
#[verifier::external_body]
pub struct ExJsonValue(serde_json::Value);

/// What the reader does after one read from the worker's output.
#[derive(Debug)]
pub enum ReaderStep {
    /// Decode this frame and deliver the message.
    Deliver(Vec<u8>),
    /// Fail every waiting request with this error and stop reading.
    Stop(TransportError),
}

/// A frame is delivered; the end of the output stops the reader with
/// `WorkerExited`; a read error stops it with that error.
pub fn after_read(read: Result<Option<Vec<u8>>, TransportError>) -> (r: ReaderStep)
    ensures
        match read {
            Ok(Some(frame)) => r matches ReaderStep::Deliver(f) && f == frame,
            Ok(None) => r matches ReaderStep::Stop(TransportError::WorkerExited),
            Err(e) => r matches ReaderStep::Stop(x) && x == e,
        },
{
    match read {
        Ok(Some(frame)) => ReaderStep::Deliver(frame),
        Ok(None) => ReaderStep::Stop(TransportError::WorkerExited),
        Err(error) => ReaderStep::Stop(error),
    }
}

/// Where a decoded message from the worker goes.
#[derive(Debug, Clone, Copy, PartialEq, Eq)]
pub enum Delivery {
    /// To the request with this id.
    Response(u64),
    /// To the notification queue.
    Notification,
    /// Nowhere: it has neither an id nor a method.
    Dropped,
}

/// A message with an id answers the request with that id; one without an id
/// but with a method is a notification; anything else is dropped.
pub fn route_message(id: Option<u64>, has_method: bool) -> (r: Delivery)
    ensures
        match id {
            Some(i) => r == Delivery::Response(i),
            None => r == if has_method {
                Delivery::Notification
            } else {
                Delivery::Dropped
            },
        },
{
    match id {
        Some(i) => Delivery::Response(i),
        None => if has_method {
            Delivery::Notification
        } else {
            Delivery::Dropped
        },
    }
}

/// The answer a waiting request receives: the worker's error object as an
/// `Rpc` error, else the result (JSON `null` when there was none).
pub fn response_outcome(error: Option<RpcErrorPayload>, result: serde_json::Value) -> (r: Result<
    serde_json::Value,
    TransportError,
>)
    ensures
        match error {
            Some(e) => r == Err::<serde_json::Value, TransportError>(
                TransportError::Rpc { code: e.code, message: e.message, data: e.data },
            ),
            None => r == Ok::<serde_json::Value, TransportError>(result),
        },
{
    match error {
        Some(payload) => Err(TransportError::from(payload)),
        None => Ok(result),
    }
}

/// How the wait for a response ended.
pub enum CallWait {
    /// The reader delivered this answer.
    Answered(Result<serde_json::Value, TransportError>),
    /// No answer came within the timeout.
    TimedOut,
    /// The reader went away without answering.
    Disconnected,
}

/// What a call returns, and the clean-up it owes.
pub struct CallEnd {
    pub result: Result<serde_json::Value, TransportError>,
    /// The request must be taken out of the pending table.
    pub forget: bool,
    /// The worker must be told to cancel the request.
    pub cancel: bool,
}

/// An answer is returned as it came; a timeout fails with `Timeout` and
/// forgets and cancels the request; a lost reader fails with `Disconnected`
/// and forgets it.
pub fn call_end(wait: CallWait, timeout_ms: u64) -> (r: CallEnd)
    ensures
        match wait {
            CallWait::Answered(a) => r.result == a && !r.forget && !r.cancel,
            CallWait::TimedOut => r.result == Err::<serde_json::Value, TransportError>(
                TransportError::Timeout { timeout_ms },
            ) && r.forget && r.cancel,
            CallWait::Disconnected => r.result == Err::<serde_json::Value, TransportError>(
                TransportError::Disconnected,
            ) && r.forget && !r.cancel,
        },
{
    match wait {
        CallWait::Answered(answer) => CallEnd { result: answer, forget: false, cancel: false },
        CallWait::TimedOut => CallEnd {
            result: Err(TransportError::Timeout { timeout_ms }),
            forget: true,
            cancel: true,
        },
        CallWait::Disconnected => CallEnd {
            result: Err(TransportError::Disconnected),
            forget: true,
            cancel: false,
        },
    }
}

/// No two entries share an id.
pub open spec fn distinct_ids<V>(s: Seq<(u64, V)>) -> bool {
    forall|i: int, j: int| 0 <= i < s.len() && 0 <= j < s.len() && i != j ==> #[trigger] s[i].0 != #[trigger] s[j].0
}

/// Whether an entry has `id`.
pub open spec fn has_id<V>(s: Seq<(u64, V)>, id: u64) -> bool {
    exists|i: int| 0 <= i < s.len() && #[trigger] s[i].0 == id
}

/// What is waiting under `id` in `s`.
pub open spec fn waiting_under<V>(s: Seq<(u64, V)>, id: u64) -> Option<V> {
    if has_id(s, id) {
        Some(s[choose|i: int| 0 <= i < s.len() && #[trigger] s[i].0 == id].1)
    } else {
        None
    }
}

/// With distinct ids, the entry at `i` is what waits under its id.
pub proof fn lemma_waiting_at<V>(s: Seq<(u64, V)>, i: int)
    requires
        distinct_ids(s),
        0 <= i < s.len(),
    ensures
        waiting_under(s, s[i].0) == Some(s[i].1),
{
    let id = s[i].0;
    assert(has_id(s, id));
    let j = choose|j: int| 0 <= j < s.len() && #[trigger] s[j].0 == id;
    assert(s[j].0 == s[i].0);
}

/// What `table` holds under `id`.
pub open spec fn held<V>(table: Map<u64, V>, id: u64) -> Option<V> {
    if table.contains_key(id) {
        Some(table[id])
    } else {
        None
    }
}

/// The ids of `table`, each once, in the order the table walks them.
fn table_ids<V>(table: &HashMap<u64, V>) -> (r: Vec<u64>)
    ensures
        r@.no_duplicates(),
        r@.to_set() == table@.dom(),
{
    broadcast use vstd::std_specs::hash::group_hash_axioms;

    let ghost all = vstd::std_specs::hash::spec_keys_iter(table).remaining().unref();
    let mut ids: Vec<u64> = Vec::new();
    for id in it: table.keys()
        invariant
            it.seq().unref() == all,
            ids@ == all.take(it.index() as int),
    {
        ids.push(*id);
        assert(all.take(it.index() + 1) == all.take(it.index() as int).push(*id));
    }
    assert(ids@ == all.take(all.len() as int));
    assert(all.take(all.len() as int) == all);
    ids
}

/// The requests waiting for an answer, each under its id, holding what the
/// answer is delivered to.
pub struct PendingRequests<V> {
    table: HashMap<u64, V>,
}

impl<V> PendingRequests<V> {
    /// What waits under each id.
    pub closed spec fn table(&self) -> Map<u64, V> {
        self.table@
    }

    /// What waits under `id`.
    pub open spec fn waiting(&self, id: u64) -> Option<V> {
        held(self.table(), id)
    }

    /// No request waits.
    pub fn new() -> (r: Self)
        ensures
            r.table() == Map::<u64, V>::empty(),
            forall|id: u64| r.waiting(id) is None,
    {
        PendingRequests { table: HashMap::new() }
    }

    /// The number of waiting requests.
    pub fn len(&self) -> (r: usize)
        ensures
            r == self.table().len(),
    {
        broadcast use vstd::std_specs::hash::group_hash_axioms;

        self.table.len()
    }

    /// Takes out what waits under `id`; every other request keeps waiting.
    pub fn take(&mut self, id: u64) -> (r: Option<V>)
        ensures
            r == old(self).waiting(id),
            final(self).table() == old(self).table().remove(id),
    {
        broadcast use vstd::std_specs::hash::group_hash_axioms;

        self.table.remove(&id)
    }

    /// Files `value` under `id`, giving back what waited there before; every
    /// other request keeps waiting.
    pub fn register(&mut self, id: u64, value: V) -> (r: Option<V>)
        ensures
            r == old(self).waiting(id),
            final(self).table() == old(self).table().insert(id, value),
    {
        broadcast use vstd::std_specs::hash::group_hash_axioms;

        self.table.insert(id, value)
    }

    /// Takes out every waiting request, each once, with its id; none waits
    /// afterwards.
    pub fn drain(&mut self) -> (r: Vec<(u64, V)>)
        ensures
            r@.len() == old(self).table().len(),
            distinct_ids(r@),
            forall|id: u64| waiting_under(r@, id) == old(self).waiting(id),
            final(self).table() == Map::<u64, V>::empty(),
    {
        broadcast use vstd::std_specs::hash::group_hash_axioms;

        let ghost before = self.table@;
        let ids = table_ids(&self.table);
        let mut drained: Vec<(u64, V)> = Vec::new();
        let mut i: usize = 0;
        while i < ids.len()
            invariant
                i <= ids@.len(),
                ids@.no_duplicates(),
                ids@.to_set() == before.dom(),
                drained@.len() == i,
                forall|j: int| 0 <= j < i ==> #[trigger] drained@[j] == (ids@[j], before[ids@[j]]),
                forall|k: u64| #[trigger]
                    self.table@.contains_key(k) <==> (before.contains_key(k) && !ids@.take(i as int).contains(k)),
                forall|k: u64| #[trigger] self.table@.contains_key(k) ==> self.table@[k] == before[k],
            decreases ids@.len() - i,
        {
            let id = ids[i];
            assert(ids@.to_set().contains(id));
            assert(!ids@.take(i as int).contains(id)) by {
                if ids@.take(i as int).contains(id) {
                    let j = choose|j: int| 0 <= j < i && #[trigger] ids@.take(i as int)[j] == id;
                    assert(ids@[j] == ids@[i as int]);
                }
            }
            let ghost table_before = self.table@;
            assert(forall|k: u64| #[trigger]
                table_before.contains_key(k) <==> (before.contains_key(k) && !ids@.take(i as int).contains(k)));
            let value = self.table.remove(&id);
            match value {
                Some(v) => {
                    drained.push((id, v));
                },
                None => {},
            }
            proof {
                let seen = ids@.take(i as int);
                let seen_next = ids@.take(i + 1);
                assert(seen_next == seen.push(id));
                assert(self.table@ == table_before.remove(id));
                assert forall|k: u64| #[trigger]
                    self.table@.contains_key(k) <==> (before.contains_key(k) && !seen_next.contains(k)) by {
                    assert(table_before.contains_key(k) <==> (before.contains_key(k) && !seen.contains(k)));
                    assert(self.table@.contains_key(k) <==> (table_before.contains_key(k) && k != id));
                    assert(seen_next.contains(id)) by {
                        assert(seen_next[i as int] == id);
                    }
                    if seen_next.contains(k) && k != id {
                        let j = choose|j: int| 0 <= j < seen_next.len() && seen_next[j] == k;
                        assert(seen[j] == k);
                    }
                    if seen.contains(k) {
                        let j = choose|j: int| 0 <= j < seen.len() && seen[j] == k;
                        assert(seen_next[j] == k);
                    }
                }
            }
            i = i + 1;
        }
        proof {
            assert(ids@.take(ids@.len() as int) == ids@);
            assert forall|k: u64| !self.table@.contains_key(k) by {
                if self.table@.contains_key(k) {
                    assert(ids@.to_set().contains(k));
                }
            }
            assert(self.table@ == Map::<u64, V>::empty());
            ids@.unique_seq_to_set();
            let d = drained@;
            assert forall|a: int, b: int| 0 <= a < d.len() && 0 <= b < d.len() && a != b implies #[trigger] d[a].0
                != #[trigger] d[b].0 by {
                assert(d[a] == (ids@[a], before[ids@[a]]));
                assert(d[b] == (ids@[b], before[ids@[b]]));
            }
            assert forall|id: u64| waiting_under(d, id) == held(before, id) by {
                if before.contains_key(id) {
                    assert(ids@.to_set().contains(id));
                    let j = choose|j: int| 0 <= j < ids@.len() && ids@[j] == id;
                    assert(d[j] == (ids@[j], before[ids@[j]]));
                    lemma_waiting_at(d, j);
                } else if has_id(d, id) {
                    let j = choose|j: int| 0 <= j < d.len() && #[trigger] d[j].0 == id;
                    assert(d[j] == (ids@[j], before[ids@[j]]));
                    assert(ids@.to_set().contains(ids@[j]));
                }
            }
            
        }
        drained
    }
}

/// A frame that is not valid JSON: every waiting request fails with a `Json`
/// error, and a `runtime.protocol_error` notification carries the message.
pub fn decode_failure(message: String) -> (r: (TransportError, ProtocolErrorParams))
    ensures
        r.0 == TransportError::Json(message),
        r.1.message == message,
{
    let notice = ProtocolErrorParams { message: message.clone() };
    (TransportError::Json(message), notice)
}

/// A message read from the worker, its fields as the JSON held them.
pub struct DecodedMessage {
    pub id: Option<u64>,
    pub method: Option<String>,
    /// The parameters, JSON `null` when absent.
    pub params: serde_json::Value,
    /// The result, JSON `null` when absent.
    pub result: serde_json::Value,
    pub error: Option<RpcErrorPayload>,
}

/// What the reader does with one frame it delivered; in every case it goes
/// on reading.
pub enum FrameOutcome<V> {
    /// The frame was not a message: fail every one of these requests, which
    /// were all the requests waiting, with `error`, and pass `notice` on as a
    /// `runtime.protocol_error` notification.
    FailAll { waiting: Vec<(u64, V)>, error: TransportError, notice: ProtocolErrorParams },
    /// An answer: give `outcome` to the request it answers, when that request
    /// still waits (`waiting`).
    Answer { waiting: Option<V>, outcome: Result<serde_json::Value, TransportError> },
    /// A notification to pass on.
    Notify { method: String, params: serde_json::Value },
    /// Neither an answer nor a notification.
    Ignore,
}

/// Handles one delivered frame, `decoded` being the message read from it or
/// the decoder's complaint: a frame that is not a message fails every
/// waiting request with a `Json` error and is announced; an answer is taken
/// out of the pending table for the request with its id; a notification is
/// passed on; anything else is ignored.
pub fn handle_frame<V>(pending: &mut PendingRequests<V>, decoded: Result<DecodedMessage, String>) -> (r:
    FrameOutcome<V>)
    ensures
        match decoded {
            Err(message) => {
                &&& r matches FrameOutcome::FailAll { waiting, error, notice } && distinct_ids(waiting@)
                    && waiting@.len() == old(pending).table().len() && (forall|id: u64|
                    waiting_under(waiting@, id) == old(pending).waiting(id)) && error == TransportError::Json(
                    message,
                ) && notice.message == message
                &&& final(pending).table() == Map::<u64, V>::empty()
            },
            Ok(m) => match m.id {
                Some(id) => {
                    &&& r matches FrameOutcome::Answer { waiting, outcome } && waiting == old(
                        pending,
                    ).waiting(id) && outcome == match m.error {
                        Some(e) => Err::<serde_json::Value, TransportError>(
                            TransportError::Rpc { code: e.code, message: e.message, data: e.data },
                        ),
                        None => Ok::<serde_json::Value, TransportError>(m.result),
                    }
                    &&& final(pending).table() == old(pending).table().remove(id)
                },
                None => {
                    &&& final(pending).table() == old(pending).table()
                    &&& match m.method {
                        Some(name) => r matches FrameOutcome::Notify { method, params } && method == name
                            && params == m.params,
                        None => r is Ignore,
                    }
                },
            },
        },
{
    match decoded {
        Err(message) => {
            let (error, notice) = decode_failure(message);
            let waiting = pending.drain();
            FrameOutcome::FailAll { waiting, error, notice }
        },
        Ok(message) => match route_message(message.id, message.method.is_some()) {
            Delivery::Response(id) => {
                let waiting = pending.take(id);
                let outcome = response_outcome(message.error, message.result);
                FrameOutcome::Answer { waiting, outcome }
            },
            Delivery::Notification => match message.method {
                Some(method) => FrameOutcome::Notify { method, params: message.params },
                None => FrameOutcome::Ignore,
            },
            Delivery::Dropped => FrameOutcome::Ignore,
        },
    }
}

} // verus!
