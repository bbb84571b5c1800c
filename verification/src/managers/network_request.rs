//! Requests that expect a response: the requesting side keeps, per request id, the sender
//! on which the response is handed to the caller; the answering side wraps each received
//! request with what it needs to send the response back.

use crate::channel::{
    bounded_channel, failure_kind, same_channel, try_recv, try_send, RecvRecord, SendFailure, SendRecord,
};
use crate::connection::{ConnectionId, NetworkData, NetworkError, NetworkPacket};
use crate::managers::network::SendMessage;
use crate::managers::NetworkInstance;
use crate::serialize::NetworkSerializedData;
use async_channel::{Receiver, Sender};
use std::collections::HashMap;
use vstd::prelude::*;

verus! {

broadcast use vstd::std_specs::hash::group_hash_axioms;

/// A request as it goes over the network: the id under which the response is expected,
/// and the request itself.
pub struct RequestInternal<T> {
    /// The id of the request.
    pub id: u64,
    /// The request.
    pub request: T,
}

/// A response as it goes over the network: the id of the request it answers, and the
/// response itself.
pub struct ResponseInternal<T> {
    /// The id of the request that is answered.
    pub response_id: u64,
    /// The response.
    pub response: T,
}

/// The eventual response of a remote request.
#[verifier::reject_recursive_types(T)]
pub struct Response<T> {
    rx: Receiver<T>,
}

impl<T> Response<T> {
    /// The receiving end of the channel the response arrives on.
    pub closed spec fn receiver(&self) -> Receiver<T> {
        self.rx
    }

    /// Try to receive the response, consuming the handle: its own receiver is polled once,
    /// and `settle` turns what came out into the outcome. When a response has arrived it is
    /// returned; otherwise the handle is handed back unchanged, to be checked again later.
    pub fn try_recv(self) -> (r: Result<T, Response<T>>)
        ensures
            exists|rec: RecvRecord<T>| #[trigger] rec.receiver() == self.receiver() && match rec.value() {
                Some(v) => r == Ok::<T, Response<T>>(v),
                None => r == Err::<T, Response<T>>(self),
            },
    {
        let (received, record) = try_recv(&self.rx);
        proof {
            assert(record@.receiver() == self.receiver());
        }
        self.settle(received)
    }

    /// The outcome of polling the handle when `received` came out of its channel: the
    /// response when there was one, and otherwise the handle itself.
    pub fn settle(self, received: Option<T>) -> (r: Result<T, Response<T>>)
        ensures
            match received {
                Some(v) => r == Ok::<T, Response<T>>(v),
                None => r == Err::<T, Response<T>>(self),
            },
    {
        match received {
            Some(res) => Ok(res),
            None => Err(self),
        }
    }
}

/// What a response map holds, as the contracts speak of it.
pub struct ResponseMapState {
    /// The id the next request gets.
    pub count: u64,
    /// The ids of the requests whose response is still awaited.
    pub pending: Set<u64>,
}

/// The successor of a request id; ids wrap around after `u64::MAX`.
pub open spec fn next_request_id(id: u64) -> u64 {
    if id == u64::MAX { 0 } else { (id + 1) as u64 }
}

impl ResponseMapState {
    /// Every awaited id was handed out before.
    pub open spec fn wf(self) -> bool {
        &&& self.pending.finite()
        &&& forall|id: u64| #[trigger] self.pending.contains(id) ==> id < self.count
    }

    /// After a request was sent: its id is the current count, and its response is awaited.
    pub open spec fn requested(self) -> ResponseMapState {
        ResponseMapState { count: next_request_id(self.count), pending: self.pending.insert(self.count) }
    }

    /// After a response to `id` arrived: it is no longer awaited.
    pub open spec fn answered(self, id: u64) -> ResponseMapState {
        ResponseMapState { pending: self.pending.remove(id), ..self }
    }
}

/// The senders of the responses that are still awaited, by request id, and the id of the
/// next request.
#[verifier::reject_recursive_types(R)]
pub struct ResponseMap<R> {
    count: u64,
    map: HashMap<u64, Sender<R>>,
}

impl<R> View for ResponseMap<R> {
    type V = ResponseMapState;

    closed spec fn view(&self) -> ResponseMapState {
        ResponseMapState { count: self.count, pending: self.map@.dom() }
    }
}

impl<R> Default for ResponseMap<R> {
    /// An empty map whose first request gets id 0.
    fn default() -> (m: Self)
        ensures
            m@.count == 0,
            m@.pending == Set::<u64>::empty(),
    {
        ResponseMap::new()
    }
}

impl<R> ResponseMap<R> {
    /// The sender on which the response to each awaited request id is handed over.
    pub closed spec fn senders(&self) -> Map<u64, Sender<R>> {
        self.map@
    }

    /// The awaited ids are those that hold a sender.
    pub proof fn lemma_pending_are_senders(&self)
        ensures
            self@.pending == self.senders().dom(),
    {
    }

    /// An empty map whose first request gets id 0.
    pub fn new() -> (m: Self)
        ensures
            m@.count == 0,
            m@.pending == Set::<u64>::empty(),
            m@.wf(),
    {
        let m = ResponseMap { count: 0, map: HashMap::new() };
        assert(m@.pending =~= Set::<u64>::empty());
        m
    }

    /// Hands out the id of a new request and the handle on which its response will arrive.
    pub fn get_responder(&mut self) -> (r: (u64, Response<R>))
        ensures
            r.0 == old(self)@.count,
            final(self)@ == old(self)@.requested(),
            old(self)@.wf() && old(self)@.count < u64::MAX ==> !old(self)@.pending.contains(r.0) && final(self)@.wf(),
            final(self).senders() == old(self).senders().insert(r.0, final(self).senders()[r.0]),
            same_channel(final(self).senders()[r.0], r.1.receiver()),
    {
        let id = self.count;
        self.count = if id == u64::MAX { 0 } else { id + 1 };
        let (tx, rx, pair) = bounded_channel(1);
        self.map.insert(id, tx);
        proof {
            assert(self@.pending =~= old(self)@.pending.insert(id));
            assert(pair@.sender() == self.senders()[id]);
        }
        (id, Response { rx })
    }

    /// Takes out the sender of the response to `id`, when that response is awaited.
    fn remove(&mut self, id: &u64) -> (r: Option<Sender<R>>)
        ensures
            r is Some <==> old(self)@.pending.contains(*id),
            r matches Some(t) ==> t == old(self).senders()[*id],
            final(self)@ == old(self)@.answered(*id),
            final(self).senders() == old(self).senders().remove(*id),
    {
        let r = self.map.remove(id);
        proof {
            assert(self@.pending =~= old(self)@.pending.remove(*id));
        }
        r
    }

    /// Hands a response that arrived to whoever awaits it, on the sender held for its id
    /// (taken out by `remove`), and stops awaiting it. Returns
    /// `Ok(false)` when no response to that id is awaited (the response is dropped),
    /// `Ok(true)` when it was handed over, and the failure when the handle does not take it.
    /// The record of the hand-over comes back too, when there was one.
    pub fn deliver(&mut self, response: ResponseInternal<R>) -> (r: (Result<bool, SendFailure<R>>, Ghost<Option<SendRecord<R>>>))
        ensures
            final(self)@ == old(self)@.answered(response.response_id),
            final(self).senders() == old(self).senders().remove(response.response_id),
            r.0 == Ok::<bool, SendFailure<R>>(false) <==> !old(self)@.pending.contains(response.response_id),
            r.1@ is Some <==> old(self)@.pending.contains(response.response_id),
            r.1@ matches Some(rec) ==> {
                &&& rec.sender() == old(self).senders()[response.response_id]
                &&& rec.message() == response.response
                &&& rec.failure() == delivery_failure(r.0)
            },
            match r.0 {
                Err(SendFailure::Full(v)) => v == response.response,
                Err(SendFailure::Closed(v)) => v == response.response,
                Ok(_) => true,
            },
    {
        match self.remove(&response.response_id) {
            Some(tx) => {
                let (sent, record) = try_send(&tx, response.response);
                let outcome = match sent {
                    Ok(()) => Ok(true),
                    Err(e) => Err(e),
                };
                (outcome, Ghost(Some(record@)))
            },
            None => (Ok(false), Ghost(None)),
        }
    }

    /// Prepares a request to `client_id`: the message to send, carrying a fresh request id,
    /// and the handle on which the response will arrive.
    pub fn send_request<T>(&mut self, client_id: ConnectionId, request: T) -> (r: (SendMessage<RequestInternal<T>>, Response<R>))
        ensures
            r.0.targets() == seq![client_id],
            r.0.payload() == (RequestInternal { id: old(self)@.count, request }),
            final(self)@ == old(self)@.requested(),
            old(self)@.wf() && old(self)@.count < u64::MAX ==> !old(self)@.pending.contains(old(self)@.count) && final(self)@.wf(),
            final(self).senders() == old(self).senders().insert(old(self)@.count, final(self).senders()[old(self)@.count]),
            same_channel(final(self).senders()[old(self)@.count], r.1.receiver()),
    {
        let (id, response) = self.get_responder();
        let mut clients: Vec<ConnectionId> = Vec::new();
        clients.push(client_id);
        assert(clients@ =~= seq![client_id]);
        (SendMessage::new(clients, RequestInternal { id, request }), response)
    }
}

/// A received request, with what is needed to send the response back to its source.
#[derive(Clone)]
#[verifier::reject_recursive_types(T)]
pub struct Request<T> {
    request: T,
    source: ConnectionId,
    request_id: u64,
    response_tx: Sender<NetworkPacket>,
    response_kind: String,
}

impl<T> Request<T> {
    /// The request.
    pub closed spec fn request_value(&self) -> T {
        self.request
    }

    /// The connection the request came from.
    pub closed spec fn source_id(&self) -> ConnectionId {
        self.source
    }

    /// The id of the request, which the response carries back.
    pub closed spec fn request_number(&self) -> u64 {
        self.request_id
    }

    /// The message kind of the response.
    pub closed spec fn response_kind_text(&self) -> Seq<char> {
        self.response_kind@
    }

    /// The sender of the outgoing packets of the connection the request came from.
    pub closed spec fn response_sender(&self) -> Sender<NetworkPacket> {
        self.response_tx
    }

    /// Read the underlying request.
    pub fn get_request(&self) -> (r: &T)
        ensures
            *r == self.request_value(),
    {
        &self.request
    }

    /// Read the source of the underlying request.
    pub fn source(&self) -> (s: &ConnectionId)
        ensures
            *s == self.source_id(),
    {
        &self.source
    }

    /// The response as it goes over the network: it carries the id of this request.
    pub fn response_for<R>(&self, response: R) -> (r: ResponseInternal<R>)
        ensures
            r.response_id == self.request_number(),
            r.response == response,
    {
        ResponseInternal { response_id: self.request_id, response }
    }

    /// The packet that carries a response, serialized as `data`, back to the source.
    pub fn response_packet(&self, data: NetworkSerializedData) -> (p: NetworkPacket)
        ensures
            p.kind@ == self.response_kind_text(),
            p.data == data,
    {
        NetworkPacket { kind: self.response_kind.clone(), data }
    }

    /// Consume the request and send the response, serialized as `serialized`, back to its
    /// source: the packet that `response_packet` makes is handed to `response_sender`, and
    /// `response_result` turns what the connection did with it into the outcome. A
    /// serialization failure gives `Serialization` and sends nothing. The record of the
    /// hand-over comes back too, when there was one.
    pub fn respond(self, serialized: Result<NetworkSerializedData, String>) -> (r: (Result<(), NetworkError>, Ghost<Option<SendRecord<NetworkPacket>>>))
        ensures
            serialized is Err ==> r.0 == Err::<(), NetworkError>(NetworkError::Serialization) && r.1@ is None,
            serialized matches Ok(d) ==> (r.1@ matches Some(rec) && {
                &&& rec.sender() == self.response_sender()
                &&& rec.message().kind@ == self.response_kind_text()
                &&& rec.message().data == d
                &&& r.0 == response_outcome(rec.failure())
            }),
    {
        let data = match serialized {
            Ok(data) => data,
            Err(_) => return (Err(NetworkError::Serialization), Ghost(None)),
        };
        let packet = self.response_packet(data);
        let (sent, record) = try_send(&self.response_tx, packet);
        (response_result(sent), Ghost(Some(record@)))
    }
}

/// The failure of a delivery, without the response it hands back.
pub open spec fn delivery_failure<R>(r: Result<bool, SendFailure<R>>) -> Option<SendFailure<()>> {
    match r {
        Ok(_) => None,
        Err(SendFailure::Full(_)) => Some(SendFailure::Full(())),
        Err(SendFailure::Closed(_)) => Some(SendFailure::Closed(())),
    }
}

/// The outcome of answering a request when sending the response ended with `failure`:
/// `Ok` when the connection took the packet, `SendError` when it did not.
pub open spec fn response_outcome(failure: Option<SendFailure<()>>) -> Result<(), NetworkError> {
    match failure {
        None => Ok(()),
        Some(_) => Err(NetworkError::SendError),
    }
}

/// What sending a response comes to: `Ok` when the connection took the packet, and
/// `SendError` when it did not.
pub fn response_result(sent: Result<(), SendFailure<NetworkPacket>>) -> (r: Result<(), NetworkError>)
    ensures
        r == response_outcome(failure_kind(sent)),
{
    match sent {
        Ok(()) => Ok(()),
        Err(_) => Err(NetworkError::SendError),
    }
}

/// Wraps a received request so that it can be answered; `None` when its source is no longer
/// connected. The response will be sent as a message of kind `response_kind`.
pub fn create_request_handler<T>(
    net: &NetworkInstance,
    data: NetworkData<RequestInternal<T>>,
    response_kind: String,
) -> (r: Option<Request<T>>)
    ensures
        r is Some <==> net@.established().contains(data.source.id),
        r matches Some(req) ==> {
            &&& req.request_value() == data.inner.request
            &&& req.source_id() == data.source
            &&& req.request_number() == data.inner.id
            &&& req.response_kind_text() == response_kind@
            &&& req.response_sender() == net@.senders[data.source.id]
        },
{
    let NetworkData { source, inner } = data;
    match net.connection_sender(source) {
        Some(response_tx) => Some(Request {
            request: inner.request,
            source,
            request_id: inner.id,
            response_tx,
            response_kind,
        }),
        None => None,
    }
}

/// A response is handed over at most once: once a response to `id` arrived, no further
/// response to `id` is awaited, so a second one is dropped.
pub proof fn lemma_response_delivered_at_most_once(s: ResponseMapState, id: u64)
    ensures
        !s.answered(id).pending.contains(id),
        s.answered(id).answered(id) == s.answered(id),
{
    assert(s.answered(id).answered(id).pending =~= s.answered(id).pending);
}

/// Sending a request and then receiving its response: the new request gets an id that no
/// awaited request has, its response is awaited, and once it arrived the awaited requests
/// are those of before.
pub proof fn lemma_request_then_response(s: ResponseMapState)
    requires
        s.wf(),
        s.count < u64::MAX,
    ensures
        !s.pending.contains(s.count),
        s.requested().wf(),
        s.requested().pending.contains(s.count),
        s.requested().answered(s.count).pending == s.pending,
{
    assert(s.requested().answered(s.count).pending =~= s.pending);
}

/// Serving other requests keeps each awaited request tied to its handle: handing out another
/// id, or taking out the sender of another id to deliver its response, leaves the sender
/// stored for `id` feeding the channel of the handle that `id` was handed out with, so the
/// response to `id` is delivered into that channel.
pub proof fn lemma_other_requests_keep_handles<R>(
    senders: Map<u64, Sender<R>>,
    id: u64,
    rx: Receiver<R>,
    other: u64,
    tx: Sender<R>,
)
    requires
        senders.contains_key(id),
        same_channel(senders[id], rx),
        other != id,
    ensures
        senders.insert(other, tx).contains_key(id),
        same_channel(senders.insert(other, tx)[id], rx),
        senders.remove(other).contains_key(id),
        same_channel(senders.remove(other)[id], rx),
{
    assert(senders.insert(other, tx)[id] == senders[id]);
    assert(senders.remove(other)[id] == senders[id]);
}

/// The state after `n` requests in a row.
pub open spec fn requested_n(s: ResponseMapState, n: nat) -> ResponseMapState
    decreases n,
{
    if n == 0 { s } else { requested_n(s, (n - 1) as nat).requested() }
}

/// Request ids are handed out in increasing order while the counter does not wrap: after
/// `n` requests from a well-formed map, the counter has moved on by `n`, so the requests got
/// the distinct ids `count .. count + n`, which are now awaited besides those of before.
pub proof fn lemma_request_ids_distinct(s: ResponseMapState, n: nat)
    requires
        s.wf(),
        s.count + n <= u64::MAX,
    ensures
        requested_n(s, n).wf(),
        requested_n(s, n).count == s.count + n,
        requested_n(s, n).pending == s.pending.union(Set::new(|id: u64| s.count <= id < s.count + n)),
    decreases n,
{
    if n > 0 {
        lemma_request_ids_distinct(s, (n - 1) as nat);
        let p = requested_n(s, (n - 1) as nat);
        assert(p.count < u64::MAX);
        assert(requested_n(s, n).pending =~= s.pending.union(Set::new(|id: u64| s.count <= id < s.count + n)));
    } else {
        assert(s.pending =~= s.pending.union(Set::new(|id: u64| s.count <= id < s.count + n)));
    }
}

} // verus!
