//! The state of one network: its established connections, the queues of received
//! messages per message kind, whether it listens, and the counters that hand out ids.

use crate::channel::{same_channel, try_recv, unlimited_channel, AsyncChannel, RecvRecord, SendRecord};
use crate::connection::{decimal_text, push_decimal, ConnectionId, NetworkError, NetworkEvent, NetworkPacket};
use crate::serialize::NetworkSerializedData;
use crate::tables::{
    connection_senders, message_queues, queues_clear, queues_contains, queues_insert, queues_new,
    queues_remove, table_clear, table_get, table_insert, table_keys, table_len, table_new, table_remove,
};
use async_channel::Sender;
use dashmap::DashMap;
use vstd::prelude::*;

/// Sending messages, and the errors of sending.
pub mod network;
/// Requests that expect a response.
pub mod network_request;

use network::SendMessage;

verus! {

/// A message received from a connection and not yet read: its source and its body.
pub type QueuedMessage = (ConnectionId, NetworkSerializedData);

/// What a network holds, as the contracts speak of it.
pub struct NetworkState {
    /// The queue of received messages of each registered message kind, oldest first.
    pub queues: Map<Seq<char>, Seq<QueuedMessage>>,
    /// The sender of the outgoing packets of each established connection, by id.
    pub senders: Map<u32, Sender<NetworkPacket>>,
    /// Whether the network listens for new connections.
    pub listening: bool,
    /// The id the next accepted connection gets.
    pub connection_count: u32,
    /// The id the next connection attempt gets.
    pub task_count: u32,
    /// The channel on which connection tasks report that their connection went away; it
    /// is made with the network and kept by every operation.
    pub reports: AsyncChannel<ConnectionId>,
}

impl NetworkState {
    /// The ids of the established connections.
    pub open spec fn established(self) -> Set<u32> {
        self.senders.dom()
    }

    /// Every established id was handed out before, and the tables are finite.
    pub open spec fn wf(self) -> bool {
        &&& self.established().finite()
        &&& self.queues.dom().finite()
        &&& forall|id: u32| #[trigger] self.established().contains(id) ==> id < self.connection_count
    }

    /// The state of a network that was just created, with the report channel `reports`.
    pub open spec fn initial(reports: AsyncChannel<ConnectionId>) -> NetworkState {
        NetworkState {
            reports,
            queues: Map::empty(),
            senders: Map::empty(),
            listening: false,
            connection_count: 0,
            task_count: 0,
        }
    }

    /// After accepting a connection whose packets go to `tx`: it gets the next id, under
    /// which it is then established.
    pub open spec fn accepted(self, tx: Sender<NetworkPacket>) -> NetworkState {
        NetworkState {
            senders: self.senders.insert(self.connection_count, tx),
            connection_count: (self.connection_count + 1) as u32,
            ..self
        }
    }

    /// After stopping: when listening, no connection and no message kind is left;
    /// otherwise nothing changes.
    pub open spec fn stopped(self) -> NetworkState {
        if self.listening {
            NetworkState {
                queues: Map::empty(),
                senders: Map::empty(),
                listening: false,
                ..self
            }
        } else {
            self
        }
    }

    /// The reports that stopping hands to the disconnection channel, one per established
    /// connection and none when not listening: each names a different established
    /// connection, every established connection is named, and each goes to the sender of
    /// the disconnection channel.
    pub open spec fn stop_reports(self, reports: Seq<SendRecord<ConnectionId>>) -> bool {
        let ids = reported_ids(reports);
        if self.listening {
            &&& ids.no_duplicates()
            &&& forall|k: int| 0 <= k < reports.len() ==> (#[trigger] reports[k]).sender() == self.reports.sender
            &&& forall|k: int| 0 <= k < ids.len() ==> self.established().contains(#[trigger] ids[k].id)
            &&& forall|id: u32| self.established().contains(id) ==> ids.contains(ConnectionId { id })
        } else {
            reports.len() == 0
        }
    }

    /// After starting to listen: a previous listener is stopped first.
    pub open spec fn listen_started(self) -> NetworkState {
        NetworkState { listening: true, ..self.stopped() }
    }

    /// After a connection went away.
    pub open spec fn disconnected(self, id: u32) -> NetworkState {
        NetworkState { senders: self.senders.remove(id), ..self }
    }

    /// After a message arrived: it joins the end of the queue of its kind when that kind is
    /// registered, and is dropped otherwise.
    pub open spec fn routed(self, kind: Seq<char>, msg: QueuedMessage) -> NetworkState {
        if self.queues.contains_key(kind) {
            NetworkState { queues: self.queues.insert(kind, self.queues[kind].push(msg)), ..self }
        } else {
            self
        }
    }

    /// After the messages of a kind were taken: its queue is empty, when it is registered.
    pub open spec fn drained(self, kind: Seq<char>) -> NetworkState {
        if self.queues.contains_key(kind) {
            NetworkState { queues: self.queues.insert(kind, Seq::empty()), ..self }
        } else {
            self
        }
    }

    /// After a message kind was registered: it has an empty queue.
    pub open spec fn registered(self, kind: Seq<char>) -> NetworkState {
        NetworkState { queues: self.queues.insert(kind, Seq::empty()), ..self }
    }

    /// After asking to register a message kind: a new kind gets an empty queue; a kind that
    /// is already registered keeps its queue, and nothing changes.
    pub open spec fn register_outcome(self, kind: Seq<char>) -> NetworkState {
        if self.queues.contains_key(kind) { self } else { self.registered(kind) }
    }
}

/// The connections that the reports `reports` name, in order.
pub open spec fn reported_ids(reports: Seq<SendRecord<ConnectionId>>) -> Seq<ConnectionId> {
    Seq::new(reports.len(), |k: int| reports[k].message())
}

/// The bookkeeping of a network: established connections with the sender of their
/// outgoing packets, queues of received messages, and the counters that hand out ids.
pub struct NetworkInstance {
    pub(crate) recv_message_map: DashMap<String, Vec<QueuedMessage>>,
    pub(crate) established_connections: DashMap<u32, Sender<NetworkPacket>>,
    pub(crate) disconnected_connections: AsyncChannel<ConnectionId>,
    pub(crate) listening: bool,
    pub(crate) connection_task_counts: u32,
    pub(crate) connection_count: u32,
}

impl View for NetworkInstance {
    type V = NetworkState;

    closed spec fn view(&self) -> NetworkState {
        NetworkState {
            queues: message_queues(self.recv_message_map),
            senders: connection_senders(self.established_connections),
            listening: self.listening,
            connection_count: self.connection_count,
            task_count: self.connection_task_counts,
            reports: self.disconnected_connections,
        }
    }
}

impl NetworkInstance {
    /// The well-formedness of the network.
    pub open spec fn wf(&self) -> bool {
        self@.wf()
    }

    /// Creates a network with no connection, no registered message kind, not listening.
    pub fn new() -> (n: Self)
        ensures
            n.wf(),
            n@ == NetworkState::initial(n@.reports),
            same_channel(n@.reports.sender, n@.reports.receiver),
            unlimited_channel(n@.reports.sender, n@.reports.receiver),
    {
        let n = NetworkInstance {
            recv_message_map: queues_new(),
            established_connections: table_new(),
            disconnected_connections: AsyncChannel::new(),
            listening: false,
            connection_task_counts: 0,
            connection_count: 0,
        };
        assert(n@.queues =~= Map::empty());
        assert(n@.senders =~= Map::empty());
        n
    }

    /// Returns true if there are any active connections.
    pub fn has_connections(&self) -> (b: bool)
        requires
            self.wf(),
        ensures
            b == !self@.established().is_empty(),
    {
        let n = table_len(&self.established_connections);
        proof {
            if n == 0 {
                self@.established().lemma_len0_is_empty();
            } else {
                assert(self@.established().len() != 0);
                assert(self@.established() != Set::<u32>::empty());
            }
        }
        n > 0
    }

    /// The number of established connections.
    pub fn connected_clients(&self) -> (n: usize)
        requires
            self.wf(),
        ensures
            n == self@.established().len(),
    {
        table_len(&self.established_connections)
    }

    /// The debug text of the network: `Network [<n> Connected Clients]`.
    pub fn to_string(&self) -> (s: String)
        requires
            self.wf(),
        ensures
            s@ == "Network ["@ + decimal_text(self@.established().len()) + " Connected Clients]"@,
    {
        let n = table_len(&self.established_connections);
        let mut s = String::from_str("Network [");
        push_decimal(&mut s, n as u64);
        s.append(" Connected Clients]");
        s
    }

    /// Whether the network listens for new connections.
    pub fn is_listening(&self) -> (b: bool)
        ensures
            b == self@.listening,
    {
        self.listening
    }

    /// The id the next accepted connection gets.
    pub fn connection_count(&self) -> (c: u32)
        ensures
            c == self@.connection_count,
    {
        self.connection_count
    }

    /// The sender on which connection tasks report that their connection went away.
    pub fn disconnected_sender(&self) -> (s: &Sender<ConnectionId>)
        ensures
            *s == self@.reports.sender,
    {
        &self.disconnected_connections.sender
    }

    /// Disconnects all clients and stops listening for new ones; returns whether the
    /// network was listening. Each dropped connection is reported on the disconnection
    /// channel, once; the records of these reports come back too. This operation is
    /// idempotent and does nothing when not listening.
    pub fn stop(&mut self) -> (r: (bool, Ghost<Seq<SendRecord<ConnectionId>>>))
        requires
            old(self).wf(),
        ensures
            final(self).wf(),
            r.0 == old(self)@.listening,
            final(self)@ == old(self)@.stopped(),
            old(self)@.stop_reports(r.1@),
    {
        if !self.listening {
            return (false, Ghost(Seq::empty()));
        }
        self.listening = false;
        let ids = self.connection_ids();
        let n = ids.len();
        let ghost mut reports: Seq<SendRecord<ConnectionId>> = Seq::empty();
        for i in 0..n
            invariant
                n == ids.len(),
                reports.len() == i,
                self.disconnected_connections == old(self).disconnected_connections,
                forall|k: int| 0 <= k < i ==> (#[trigger] reports[k]).sender() == old(self)@.reports.sender
                    && reports[k].message() == ids@[k],
        {
            // A report that the channel does not take is dropped.
            let (_, record) = crate::channel::try_send(&self.disconnected_connections.sender, ids[i]);
            proof {
                reports = reports.push(record@);
            }
        }
        proof {
            assert(reported_ids(reports) =~= ids@);
            assert forall|id: u32| old(self)@.established().contains(id) implies ids@.contains(ConnectionId { id }) by {
                assert(self@.established().contains(id));
            }
        }
        table_clear(&mut self.established_connections);
        queues_clear(&mut self.recv_message_map);
        assert(self@.queues =~= Map::empty());
        assert(self@.senders =~= Map::empty());
        (true, Ghost(reports))
    }

    /// Starts listening for new clients; a listener that was running is stopped first, as
    /// `stop` does, with its reports. Returns whether one was running.
    pub fn listen(&mut self) -> (r: (bool, Ghost<Seq<SendRecord<ConnectionId>>>))
        requires
            old(self).wf(),
        ensures
            final(self).wf(),
            r.0 == old(self)@.listening,
            final(self)@ == old(self)@.listen_started(),
            old(self)@.stop_reports(r.1@),
    {
        let r = self.stop();
        self.listening = true;
        r
    }

    /// Hands out the id of the next connection attempt; the counter wraps around.
    pub fn next_task_id(&mut self) -> (id: u32)
        requires
            old(self).wf(),
        ensures
            final(self).wf(),
            id == old(self)@.task_count,
            final(self)@ == (NetworkState {
                task_count: if id == u32::MAX { 0 } else { (id + 1) as u32 },
                ..old(self)@
            }),
    {
        let id = self.connection_task_counts;
        self.connection_task_counts = if id == u32::MAX { 0 } else { id + 1 };
        id
    }

    /// Accepts a connection whose outgoing packets go to `sender`: it gets the next id and
    /// is established. The id comes back with the event that announces the connection.
    pub fn accept_connection(&mut self, sender: Sender<NetworkPacket>) -> (r: (ConnectionId, NetworkEvent))
        requires
            old(self).wf(),
            old(self)@.connection_count < u32::MAX,
        ensures
            final(self).wf(),
            r.0.id == old(self)@.connection_count,
            r.1 == NetworkEvent::Connected(r.0),
            !old(self)@.established().contains(r.0.id),
            final(self)@ == old(self)@.accepted(sender),
    {
        let id = self.connection_count;
        table_insert(&mut self.established_connections, id, sender);
        self.connection_count = id + 1;
        let conn = ConnectionId { id };
        (conn, NetworkEvent::Connected(conn))
    }

    /// Handles the report that the connection `conn` went away: it is no longer established,
    /// and the event that says so is returned, whether or not it was established.
    pub fn connection_lost(&mut self, conn: ConnectionId) -> (ev: NetworkEvent)
        requires
            old(self).wf(),
        ensures
            final(self).wf(),
            ev == NetworkEvent::Disconnected(conn),
            final(self)@ == old(self)@.disconnected(conn.id),
    {
        let _ = table_remove(&mut self.established_connections, conn.id);
        NetworkEvent::Disconnected(conn)
    }

    /// Takes one report of a connection that went away from the disconnection channel, if
    /// one is waiting, and handles it as `connection_lost` does. The receiving end of the
    /// disconnection channel is polled once.
    pub fn next_disconnection(&mut self) -> (ev: Option<NetworkEvent>)
        requires
            old(self).wf(),
        ensures
            final(self).wf(),
            exists|rec: RecvRecord<ConnectionId>| #[trigger] rec.receiver() == old(self)@.reports.receiver && match rec.value() {
                Some(c) => ev == Some(NetworkEvent::Disconnected(c)) && final(self)@ == old(self)@.disconnected(c.id),
                None => ev is None && final(self)@ == old(self)@,
            },
    {
        let (received, record) = try_recv(&self.disconnected_connections.receiver);
        proof {
            assert(record@.receiver() == old(self)@.reports.receiver);
        }
        match received {
            Some(c) => Some(self.connection_lost(c)),
            None => None,
        }
    }

    /// Disconnects a specific client; fails when it is not connected.
    pub fn disconnect(&mut self, conn_id: ConnectionId) -> (r: Result<(), NetworkError>)
        requires
            old(self).wf(),
        ensures
            final(self).wf(),
            final(self)@ == old(self)@.disconnected(conn_id.id),
            r is Ok <==> old(self)@.established().contains(conn_id.id),
            r matches Err(e) ==> e == NetworkError::ConnectionNotFound(conn_id),
    {
        match table_remove(&mut self.established_connections, conn_id.id) {
            Some(_) => Ok(()),
            None => Err(NetworkError::ConnectionNotFound(conn_id)),
        }
    }

    /// The sender of the outgoing packets of a connection, when it is established.
    pub fn connection_sender(&self, conn_id: ConnectionId) -> (tx: Option<Sender<NetworkPacket>>)
        ensures
            tx is Some <==> self@.established().contains(conn_id.id),
            tx matches Some(t) ==> t == self@.senders[conn_id.id],
    {
        table_get(&self.established_connections, conn_id.id)
    }

    /// The ids of all established connections, each once.
    pub fn connection_ids(&self) -> (ids: Vec<ConnectionId>)
        ensures
            ids@.no_duplicates(),
            forall|i: int| 0 <= i < ids@.len() ==> self@.established().contains(#[trigger] ids@[i].id),
            forall|id: u32| self@.established().contains(id) ==> ids@.contains(ConnectionId { id }),
    {
        let keys = table_keys(&self.established_connections);
        let mut ids: Vec<ConnectionId> = Vec::new();
        let n = keys.len();
        for i in 0..n
            invariant
                n == keys.len(),
                keys@.no_duplicates(),
                ids@.len() == i,
                forall|j: int| 0 <= j < i ==> (#[trigger] ids@[j]).id == keys@[j],
        {
            ids.push(ConnectionId { id: keys[i] });
        }
        proof {
            assert forall|a: int, b: int| 0 <= a < ids@.len() && 0 <= b < ids@.len() && a != b
                implies ids@[a] != ids@[b] by {
                assert(keys@[a] != keys@[b]);
            }
            assert forall|i: int| 0 <= i < ids@.len() implies self@.established().contains(#[trigger] ids@[i].id) by {
                assert(keys@.to_set().contains(keys@[i]));
            }
            assert forall|id: u32| self@.established().contains(id) implies ids@.contains(ConnectionId { id }) by {
                assert(keys@.to_set().contains(id));
                let j = choose|j: int| 0 <= j < keys@.len() && keys@[j] == id;
                assert(ids@[j] == ConnectionId { id });
            }
        }
        ids
    }

    /// A message to all connected clients.
    pub fn broadcast<T>(&self, message: T) -> (m: SendMessage<T>)
        ensures
            m.payload() == message,
            m.targets().no_duplicates(),
            forall|i: int| 0 <= i < m.targets().len() ==> self@.established().contains(#[trigger] m.targets()[i].id),
            forall|id: u32| self@.established().contains(id) ==> m.targets().contains(ConnectionId { id }),
    {
        SendMessage::new(self.connection_ids(), message)
    }

    /// Whether a queue is kept for messages of this kind.
    pub fn is_registered(&self, kind: &str) -> (b: bool)
        ensures
            b == self@.queues.contains_key(kind@),
    {
        queues_contains(&self.recv_message_map, kind)
    }

    /// Registers a message kind: messages of it are kept until taken. A kind is registered
    /// at most once: registering a kind that is already registered is refused, returns
    /// false, and leaves its queue as it is.
    pub fn register_message_kind(&mut self, kind: String) -> (added: bool)
        requires
            old(self).wf(),
        ensures
            final(self).wf(),
            added == !old(self)@.queues.contains_key(kind@),
            final(self)@ == old(self)@.register_outcome(kind@),
    {
        if queues_contains(&self.recv_message_map, kind.as_str()) {
            return false;
        }
        let empty: Vec<QueuedMessage> = Vec::new();
        assert(empty@ =~= Seq::<QueuedMessage>::empty());
        queues_insert(&mut self.recv_message_map, kind, empty);
        true
    }

    /// Files a packet that arrived from `source` under its kind; returns whether the kind is
    /// registered. A packet of an unregistered kind is dropped.
    pub fn route_packet(&mut self, source: ConnectionId, packet: NetworkPacket) -> (kept: bool)
        requires
            old(self).wf(),
        ensures
            final(self).wf(),
            kept == old(self)@.queues.contains_key(packet.kind@),
            final(self)@ == old(self)@.routed(packet.kind@, (source, packet.data)),
    {
        let NetworkPacket { kind, data } = packet;
        match queues_remove(&mut self.recv_message_map, kind.as_str()) {
            Some(mut queue) => {
                queue.push((source, data));
                queues_insert(&mut self.recv_message_map, kind, queue);
                proof {
                    assert(self@.queues =~= old(self)@.queues.insert(kind@, old(self)@.queues[kind@].push((source, data))));
                }
                true
            },
            None => {
                proof {
                    assert(self@.queues =~= old(self)@.queues);
                }
                false
            },
        }
    }

    /// Takes all queued messages of a kind, oldest first, leaving its queue empty; `None`
    /// when the kind is not registered.
    pub fn take_messages(&mut self, kind: &str) -> (msgs: Option<Vec<QueuedMessage>>)
        requires
            old(self).wf(),
        ensures
            final(self).wf(),
            final(self)@ == old(self)@.drained(kind@),
            match msgs {
                Some(m) => old(self)@.queues.contains_key(kind@) && m@ == old(self)@.queues[kind@],
                None => !old(self)@.queues.contains_key(kind@),
            },
    {
        match queues_remove(&mut self.recv_message_map, kind) {
            Some(queue) => {
                let empty: Vec<QueuedMessage> = Vec::new();
                queues_insert(&mut self.recv_message_map, String::from_str(kind), empty);
                proof {
                    assert(self@.queues =~= old(self)@.queues.insert(kind@, Seq::empty()));
                }
                Some(queue)
            },
            None => {
                proof {
                    assert(self@.queues =~= old(self)@.queues);
                }
                None
            },
        }
    }
}

#[verifier::opaque]
/// One operation of the network: accepting a connection (while ids remain), stopping,
/// starting to listen, a connection going away (reported or disconnected), a message arriving, the messages of a kind
/// being taken, a message kind being registered, or a connection attempt getting its id.
pub open spec fn step(s: NetworkState, t: NetworkState) -> bool {
    ||| (s.connection_count < u32::MAX && exists|tx: Sender<NetworkPacket>| t == #[trigger] s.accepted(tx))
    ||| t == s.stopped()
    ||| t == s.listen_started()
    ||| (exists|id: u32| t == #[trigger] s.disconnected(id))
    ||| (exists|kind: Seq<char>, msg: QueuedMessage| t == #[trigger] s.routed(kind, msg))
    ||| (exists|kind: Seq<char>| t == #[trigger] s.drained(kind))
    ||| (exists|kind: Seq<char>| t == #[trigger] s.register_outcome(kind))
    ||| t == NetworkState { task_count: if s.task_count == u32::MAX { 0 } else { (s.task_count + 1) as u32 }, ..s }
}

/// A sequence of states in which each follows from the one before by one operation.
pub open spec fn is_run(trace: Seq<NetworkState>) -> bool {
    forall|i: int| 0 <= i < trace.len() - 1 ==> step(#[trigger] trace[i], trace[i + 1])
}

/// Every operation keeps the network well formed.
pub proof fn lemma_step_preserves_wf(s: NetworkState, t: NetworkState)
    requires
        s.wf(),
        step(s, t),
    ensures
        t.wf(),
        s.connection_count <= t.connection_count,
{
    reveal(step);
    if exists|kind: Seq<char>, msg: QueuedMessage| t == #[trigger] s.routed(kind, msg) {
        let (kind, msg) = choose|kind: Seq<char>, msg: QueuedMessage| t == #[trigger] s.routed(kind, msg);
        if s.queues.contains_key(kind) {
            assert(t.queues.dom() =~= s.queues.dom());
        }
    } else if exists|kind: Seq<char>| t == #[trigger] s.drained(kind) {
        let kind = choose|kind: Seq<char>| t == #[trigger] s.drained(kind);
        if s.queues.contains_key(kind) {
            assert(t.queues.dom() =~= s.queues.dom());
        }
    }
}

/// No operation lowers the id that the next accepted connection gets.
pub proof fn lemma_connection_count_never_decreases(trace: Seq<NetworkState>, i: int, j: int)
    requires
        0 <= i <= j < trace.len(),
        is_run(trace),
        trace[0].wf(),
    ensures
        trace[i].connection_count <= trace[j].connection_count,
    decreases j - i,
{
    if i < j {
        lemma_connection_count_never_decreases(trace, i, j - 1);
        lemma_run_keeps_wf(trace, j - 1);
        assert(step(trace[j - 1], trace[j]));
        lemma_step_preserves_wf(trace[j - 1], trace[j]);
    }
}

/// Connection ids are never reused: two connections accepted at different points of a run
/// get different ids, and a connection's id is never that of a connection established
/// before it was accepted.
pub proof fn lemma_connection_ids_unique(
    trace: Seq<NetworkState>,
    i: int,
    j: int,
    tx_i: Sender<NetworkPacket>,
    tx_j: Sender<NetworkPacket>,
)
    requires
        0 <= i < j < trace.len() - 1,
        is_run(trace),
        trace[0].wf(),
        trace[i].connection_count < u32::MAX,
        trace[i + 1] == trace[i].accepted(tx_i),
        trace[j + 1] == trace[j].accepted(tx_j),
    ensures
        trace[i].connection_count < trace[j].connection_count,
        !trace[j].established().contains(trace[j].connection_count),
{
    lemma_connection_count_never_decreases(trace, i + 1, j);
    lemma_run_keeps_wf(trace, j);
}

/// Every state of a run that starts well formed is well formed.
pub proof fn lemma_run_keeps_wf(trace: Seq<NetworkState>, k: int)
    requires
        0 <= k < trace.len(),
        is_run(trace),
        trace[0].wf(),
    ensures
        trace[k].wf(),
    decreases k,
{
    if k > 0 {
        lemma_run_keeps_wf(trace, k - 1);
        assert(step(trace[k - 1], trace[k]));
        lemma_step_preserves_wf(trace[k - 1], trace[k]);
    }
}

/// Stopping is idempotent: a second stop changes nothing, and a stopped network does not
/// listen.
pub proof fn lemma_stop_idempotent(s: NetworkState)
    ensures
        s.stopped().stopped() == s.stopped(),
        !s.stopped().listening,
{
}

/// Stopping a listening network drops every connection and every message kind; stopping a
/// network that does not listen changes nothing.
pub proof fn lemma_stop_disconnects_all(s: NetworkState)
    ensures
        s.listening ==> s.stopped().established().is_empty() && s.stopped().queues.dom().is_empty(),
        !s.listening ==> s.stopped() == s,
{
}

/// Disconnecting is idempotent, and a disconnected connection is no longer established.
pub proof fn lemma_disconnect_idempotent(s: NetworkState, id: u32)
    ensures
        s.disconnected(id).disconnected(id) == s.disconnected(id),
        !s.disconnected(id).established().contains(id),
{
    assert(s.disconnected(id).disconnected(id).senders =~= s.disconnected(id).senders);
}

/// The state after messages arrive one after the other.
pub open spec fn routed_all(s: NetworkState, kind: Seq<char>, msgs: Seq<QueuedMessage>) -> NetworkState
    decreases msgs.len(),
{
    if msgs.len() == 0 {
        s
    } else {
        routed_all(s, kind, msgs.drop_last()).routed(kind, msgs.last())
    }
}

/// Messages of a registered kind are kept in arrival order: after messages arrive at an
/// empty queue, taking the messages of that kind gives them back in that order, leaves the
/// queue empty, and no other queue changes. Messages of a kind that is not registered are
/// dropped.
pub proof fn lemma_messages_taken_in_arrival_order(s: NetworkState, kind: Seq<char>, msgs: Seq<QueuedMessage>)
    ensures
        s.queues.contains_key(kind) && s.queues[kind] == Seq::<QueuedMessage>::empty() ==> {
            let t = routed_all(s, kind, msgs);
            &&& t.queues.contains_key(kind)
            &&& t.queues[kind] == msgs
            &&& t.drained(kind).queues[kind] == Seq::<QueuedMessage>::empty()
            &&& forall|k: Seq<char>| k != kind ==> #[trigger] t.queues.contains_key(k) == s.queues.contains_key(k)
            &&& forall|k: Seq<char>| k != kind && s.queues.contains_key(k) ==> #[trigger] t.queues[k] == s.queues[k]
        },
        !s.queues.contains_key(kind) ==> routed_all(s, kind, msgs) == s,
    decreases msgs.len(),
{
    if msgs.len() > 0 {
        lemma_messages_taken_in_arrival_order(s, kind, msgs.drop_last());
        if s.queues.contains_key(kind) && s.queues[kind] == Seq::<QueuedMessage>::empty() {
            let prev = routed_all(s, kind, msgs.drop_last());
            let t = routed_all(s, kind, msgs);
            assert(t == prev.routed(kind, msgs.last()));
            assert(msgs.drop_last().push(msgs.last()) =~= msgs);
            assert forall|k: Seq<char>| k != kind implies #[trigger] t.queues.contains_key(k) == s.queues.contains_key(k) by {
                assert(prev.queues.contains_key(k) == s.queues.contains_key(k));
            }
            assert forall|k: Seq<char>| k != kind && s.queues.contains_key(k) implies #[trigger] t.queues[k] == s.queues[k] by {
                assert(prev.queues.contains_key(k));
                assert(prev.queues[k] == s.queues[k]);
            }
        }
    }
}

/// A message kind is registered once: right after it is registered it counts as registered,
/// so asking to register it again is refused and changes nothing (its queue is not
/// replaced), and it stays registered through every operation but
/// stopping a listening network (starting to listen stops a running listener first).
pub proof fn lemma_registration_is_kept(
    s: NetworkState,
    kind: Seq<char>,
    tx: Sender<NetworkPacket>,
    id: u32,
    other: Seq<char>,
    msg: QueuedMessage,
)
    ensures
        s.registered(kind).queues.contains_key(kind),
        s.register_outcome(kind).register_outcome(kind) == s.register_outcome(kind),
        s.queues.contains_key(kind) ==> s.register_outcome(kind) == s,
        s.queues.contains_key(kind) ==> {
            &&& s.accepted(tx).queues.contains_key(kind)
            &&& s.disconnected(id).queues.contains_key(kind)
            &&& s.routed(other, msg).queues.contains_key(kind)
            &&& s.drained(other).queues.contains_key(kind)
            &&& s.registered(other).queues.contains_key(kind)
            &&& (!s.listening ==> s.stopped().queues.contains_key(kind)
                && s.listen_started().queues.contains_key(kind))
        },
{
}

/// Starting to listen on a network that does not listen changes nothing but that it now
/// listens: its connections, message kinds, queued messages and counters are kept. On a
/// network that listens, the running listener is stopped first: no connection and no
/// message kind is left, and the counters are kept.
pub proof fn lemma_listen_keeps_state_when_idle(s: NetworkState)
    ensures
        !s.listening ==> s.listen_started() == (NetworkState { listening: true, ..s }),
        !s.listening ==> s.listen_started().senders == s.senders && s.listen_started().queues == s.queues,
        s.listening ==> s.listen_started().established().is_empty() && s.listen_started().queues.dom().is_empty(),
        s.listen_started().listening,
        s.listen_started().connection_count == s.connection_count,
        s.listen_started().task_count == s.task_count,
        s.listen_started().reports == s.reports,
{
}

/// The disconnection channel is fixed for the life of a network: no operation replaces it, so
/// every report a stop hands over goes to the channel the network was created with (which
/// has no capacity limit), and `next_disconnection` reads from that same channel.
pub proof fn lemma_reports_channel_kept(trace: Seq<NetworkState>, k: int)
    requires
        0 <= k < trace.len(),
        is_run(trace),
    ensures
        trace[k].reports == trace[0].reports,
    decreases k,
{
    if k > 0 {
        lemma_reports_channel_kept(trace, k - 1);
        assert(step(trace[k - 1], trace[k]));
        reveal(step);
        let s = trace[k - 1];
        let t = trace[k];
        if s.connection_count < u32::MAX && exists|tx: Sender<NetworkPacket>| t == #[trigger] s.accepted(tx) {
            let tx = choose|tx: Sender<NetworkPacket>| t == #[trigger] s.accepted(tx);
        } else if exists|id: u32| t == #[trigger] s.disconnected(id) {
            let id = choose|id: u32| t == #[trigger] s.disconnected(id);
        } else if exists|kind: Seq<char>, msg: QueuedMessage| t == #[trigger] s.routed(kind, msg) {
            let (kind, msg) = choose|kind: Seq<char>, msg: QueuedMessage| t == #[trigger] s.routed(kind, msg);
        } else if exists|kind: Seq<char>| t == #[trigger] s.drained(kind) {
            let kind = choose|kind: Seq<char>| t == #[trigger] s.drained(kind);
        } else if exists|kind: Seq<char>| t == #[trigger] s.register_outcome(kind) {
            let kind = choose|kind: Seq<char>| t == #[trigger] s.register_outcome(kind);
        }
    }
}

/// Taking the messages of a kind twice gives nothing the second time.
pub proof fn lemma_take_twice(s: NetworkState, kind: Seq<char>)
    ensures
        s.queues.contains_key(kind) ==> s.drained(kind).drained(kind) == s.drained(kind)
            && s.drained(kind).queues[kind] == Seq::<QueuedMessage>::empty(),
        !s.queues.contains_key(kind) ==> s.drained(kind) == s,
{
    if s.queues.contains_key(kind) {
        assert(s.drained(kind).drained(kind).queues =~= s.drained(kind).queues);
    }
}

} // verus!
