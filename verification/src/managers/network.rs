use crate::channel::{send_failure_text, try_send, SendFailure, SendRecord};
use crate::connection::{connection_id_text, ConnectionId, NetworkData, NetworkPacket};
use crate::managers::NetworkInstance;
use crate::serialize::{NetworkSerializedData, SerializedDataView};
use async_channel::Sender;
use vstd::prelude::*;

verus! {

/// An event that will send a message over the network to the given clients.
pub struct SendMessage<T> {
    clients: Vec<ConnectionId>,
    message: T,
}

impl<T> SendMessage<T> {
    /// The clients the message goes to, in order.
    pub closed spec fn targets(&self) -> Seq<ConnectionId> {
        self.clients@
    }

    /// The message.
    pub closed spec fn payload(&self) -> T {
        self.message
    }

    /// Create a new instance of [`SendMessage`].
    pub fn new(clients: Vec<ConnectionId>, message: T) -> (m: SendMessage<T>)
        ensures
            m.targets() == clients@,
            m.payload() == message,
    {
        SendMessage { clients, message }
    }

    /// The clients the message goes to, in order.
    pub fn clients(&self) -> (c: &Vec<ConnectionId>)
        ensures
            c@ == self.targets(),
    {
        &self.clients
    }

    /// The message.
    pub fn message(&self) -> (m: &T)
        ensures
            *m == self.payload(),
    {
        &self.message
    }

    /// The clients and the message.
    pub fn into_parts(self) -> (r: (Vec<ConnectionId>, T))
        ensures
            r.0@ == self.targets(),
            r.1 == self.payload(),
    {
        (self.clients, self.message)
    }
}

/// An error that occurred while sending a message of some kind.
pub struct MessageError {
    kind: String,
    error: String,
}

impl View for MessageError {
    /// The message kind and the error text.
    type V = (Seq<char>, Seq<char>);

    closed spec fn view(&self) -> (Seq<char>, Seq<char>) {
        (self.kind@, self.error@)
    }
}

impl MessageError {
    /// Construct a new [`MessageError`].
    pub fn new(kind: String, error: String) -> (e: MessageError)
        ensures
            e@ == (kind@, error@),
    {
        MessageError { kind, error }
    }

    /// Returns the message kind that the error occurred in relation to.
    pub fn kind(&self) -> (k: &str)
        ensures
            k@ == self@.0,
    {
        self.kind.as_str()
    }

    /// Returns the actual error string.
    pub fn error(&self) -> (e: &str)
        ensures
            e@ == self@.1,
    {
        self.error.as_str()
    }
}

/// The error text when a target of a message is not connected.
pub open spec fn client_not_found_text(c: ConnectionId) -> Seq<char> {
    "client not found: "@ + connection_id_text(c.id)
}

/// The error text when a message cannot be serialized.
pub open spec fn serialize_failed_text() -> Seq<char> {
    "failed to serialize message"@
}

/// The error text when a connection does not take a packet.
pub open spec fn send_failed_text<P>(f: SendFailure<P>) -> Seq<char> {
    "There was an error sending a packet: "@ + send_failure_text(f)
}

/// The kind and error text of an optional error.
pub open spec fn error_view(err: Option<MessageError>) -> Option<(Seq<char>, Seq<char>)> {
    match err {
        Some(e) => Some(e@),
        None => None,
    }
}

/// The contents of the serialized message, when serialization succeeded.
pub open spec fn serialized_view(s: Result<NetworkSerializedData, String>) -> Option<SerializedDataView> {
    match s {
        Ok(d) => Some(d@),
        Err(_) => None,
    }
}

/// Whether `rec` is the hand-over, to the connection of target `c`, of the packet of kind
/// `kind` that carries the serialized message `data`.
pub open spec fn handed_to(
    rec: SendRecord<NetworkPacket>,
    senders: Map<u32, Sender<NetworkPacket>>,
    c: ConnectionId,
    kind: Seq<char>,
    data: Option<SerializedDataView>,
) -> bool {
    &&& senders.contains_key(c.id)
    &&& rec.sender() == senders[c.id]
    &&& rec.message().kind@ == kind
    &&& data == Some(rec.message().data@)
}

/// The error that sending to the targets `t` ends with, after the hand-overs `sends` to its
/// first targets: the failure of the last hand-over when the connection did not take the
/// packet; otherwise, when targets are left, the missing client or, for a connected first
/// target, the failed serialization; otherwise none.
pub open spec fn send_error(
    t: Seq<ConnectionId>,
    senders: Map<u32, Sender<NetworkPacket>>,
    kind: Seq<char>,
    sends: Seq<SendRecord<NetworkPacket>>,
) -> Option<(Seq<char>, Seq<char>)> {
    let n = sends.len();
    if n > 0 && sends[n - 1].failure() is Some {
        Some((kind, send_failed_text(sends[n - 1].failure()->0)))
    } else if n < t.len() {
        if !senders.contains_key(t[n as int].id) {
            Some((kind, client_not_found_text(t[n as int])))
        } else {
            Some((kind, serialize_failed_text()))
        }
    } else {
        None
    }
}

/// The outcomes of sending a message of kind `kind`, serialized as `data` (`None` when
/// serialization failed), to the targets `t`, when the network holds the connection senders
/// `senders`. The packet is handed, in order, to the connection of each target, and `sends`
/// records these hand-overs. Sending stops at the first connection that does not take the
/// packet, at the first target that is not connected, or at a connected first target when
/// serialization failed; `err` is the error it stops with, and none when every target took
/// the packet.
pub open spec fn send_outcome(
    t: Seq<ConnectionId>,
    senders: Map<u32, Sender<NetworkPacket>>,
    kind: Seq<char>,
    data: Option<SerializedDataView>,
    sends: Seq<SendRecord<NetworkPacket>>,
    err: Option<(Seq<char>, Seq<char>)>,
) -> bool {
    &&& sends.len() <= t.len()
    &&& forall|k: int| 0 <= k < sends.len() ==> handed_to(#[trigger] sends[k], senders, t[k], kind, data)
    &&& forall|k: int| 0 <= k < sends.len() - 1 ==> (#[trigger] sends[k]).failure() is None
    &&& (sends.len() < t.len() && !(sends.len() > 0 && sends.last().failure() is Some)
        && senders.contains_key(t[sends.len() as int].id)) ==> sends.len() == 0 && data is None
    &&& err == send_error(t, senders, kind, sends)
}

/// What one target's send comes to: no error when the connection took the packet, and the
/// error that names the failure when it did not.
pub fn send_result(kind: &str, sent: Result<(), SendFailure<NetworkPacket>>) -> (r: Option<MessageError>)
    ensures
        sent is Ok ==> r is None,
        sent matches Err(f) ==> (r matches Some(e) && e@ == (kind@, send_failed_text(f))),
{
    match sent {
        Ok(()) => None,
        Err(failure) => {
            let mut text = String::from_str("There was an error sending a packet: ");
            let reason = failure.text();
            text.append(reason.as_str());
            Some(MessageError::new(String::from_str(kind), text))
        },
    }
}

/// Sends a message of kind `kind`, serialized as `serialized`, to each target in turn: the
/// packet `NetworkPacket::packet_for(kind, data)` is handed to the sender that the network
/// holds for the target (`connection_sender`), and `send_result` turns what the connection
/// did with it into the outcome. The first target that is not connected, a failed
/// serialization, or a connection that does not take the packet stops the sending and gives
/// the error that is returned. The records of the hand-overs come back with the error.
pub fn send_message<T>(
    net: &NetworkInstance,
    event: &SendMessage<T>,
    kind: &str,
    serialized: &Result<NetworkSerializedData, String>,
) -> (r: (Option<MessageError>, Ghost<Seq<SendRecord<NetworkPacket>>>))
    ensures
        send_outcome(event.targets(), net@.senders, kind@, serialized_view(*serialized), r.1@, error_view(r.0)),
{
    let clients = event.clients();
    let n = clients.len();
    let ghost mut sends: Seq<SendRecord<NetworkPacket>> = Seq::empty();
    for i in 0..n
        invariant
            n == clients@.len(),
            clients@ == event.targets(),
            sends.len() == i,
            i > 0 ==> serialized is Ok,
            forall|k: int| 0 <= k < i ==> handed_to(#[trigger] sends[k], net@.senders, event.targets()[k], kind@, serialized_view(*serialized)),
            forall|k: int| 0 <= k < i ==> (#[trigger] sends[k]).failure() is None,
    {
        let target = clients[i];
        let tx = match net.connection_sender(target) {
            Some(tx) => tx,
            None => {
                let mut text = String::from_str("client not found: ");
                let id_text = target.to_string();
                text.append(id_text.as_str());
                let err = MessageError::new(String::from_str(kind), text);
                proof {
                    assert(err@.1 == client_not_found_text(event.targets()[i as int]));
                }
                return (Some(err), Ghost(sends));
            },
        };
        let data = match serialized {
            Ok(data) => data,
            Err(_) => {
                let err = MessageError::new(String::from_str(kind), String::from_str("failed to serialize message"));
                return (Some(err), Ghost(sends));
            },
        };
        let packet = NetworkPacket::packet_for(kind, data);
        let (sent, record) = try_send(&tx, packet);
        proof {
            sends = sends.push(record@);
        }
        match send_result(kind, sent) {
            None => {},
            Some(e) => {
                proof {
                    assert(sends.last() == record@);
                }
                return (Some(e), Ghost(sends));
            },
        }
    }
    (None, Ghost(sends))
}

/// The messages that could be decoded, in order, each with the connection it came from.
pub open spec fn decoded_data<T>(s: Seq<(ConnectionId, Option<T>)>) -> Seq<NetworkData<T>>
    decreases s.len(),
{
    if s.len() == 0 {
        Seq::empty()
    } else {
        let rest = decoded_data(s.drop_first());
        match s[0].1 {
            Some(v) => seq![NetworkData { source: s[0].0, inner: v }] + rest,
            None => rest,
        }
    }
}

/// Turns received messages into message events: those that could not be decoded (`None`)
/// are dropped, the others keep their order and their source.
pub fn decoded_messages<T>(decoded: Vec<(ConnectionId, Option<T>)>) -> (out: Vec<NetworkData<T>>)
    ensures
        out@ == decoded_data(decoded@),
{
    let mut rest = decoded;
    let mut out: Vec<NetworkData<T>> = Vec::new();
    while rest.len() > 0
        invariant
            out@ + decoded_data(rest@) == decoded_data(decoded@),
        decreases rest.len(),
    {
        let ghost before = rest@;
        let (source, msg) = rest.remove(0);
        assert(rest@ =~= before.drop_first());
        match msg {
            Some(inner) => {
                let ghost out_before = out@;
                out.push(NetworkData { source, inner });
                assert(out@ + decoded_data(rest@) =~= out_before + decoded_data(before));
            },
            None => {},
        }
    }
    assert(out@ =~= out@ + decoded_data(rest@));
    out
}

/// Sending stops at the first connection that does not take the packet, and that failure is
/// the error returned: every hand-over before the last one succeeded; a failed hand-over is
/// the last one and the error names its failure; no error means every target was handed the
/// packet and took it; and a target that was not handed the packet means an error.
pub proof fn lemma_send_stops_at_first_failure(
    t: Seq<ConnectionId>,
    senders: Map<u32, Sender<NetworkPacket>>,
    kind: Seq<char>,
    data: Option<SerializedDataView>,
    sends: Seq<SendRecord<NetworkPacket>>,
    err: Option<(Seq<char>, Seq<char>)>,
)
    requires
        send_outcome(t, senders, kind, data, sends, err),
    ensures
        forall|k: int| 0 <= k < sends.len() && (#[trigger] sends[k]).failure() is Some ==> {
            &&& k == sends.len() - 1
            &&& err == Some((kind, send_failed_text(sends[k].failure()->0)))
        },
        err is None ==> sends.len() == t.len() && forall|k: int| 0 <= k < sends.len() ==> (#[trigger] sends[k]).failure() is None,
        sends.len() < t.len() ==> err is Some,
{
}

/// Decoding keeps exactly the messages that could be decoded, in their order and each with
/// its source: it is the `filter_map` of the received entries that turns an entry with a
/// decoded message into that message's event and drops an entry without one. So the events
/// are as many as the decoded entries, and a lone decoded message gives one event.
pub proof fn lemma_decoded_data_keeps_every_decoded<T>(s: Seq<(ConnectionId, Option<T>)>)
    ensures
        decoded_data(s) == s.filter_map(|e: (ConnectionId, Option<T>)| match e.1 {
            Some(v) => Some(NetworkData { source: e.0, inner: v }),
            None => None::<NetworkData<T>>,
        }),
    decreases s.len(),
{
    let f = |e: (ConnectionId, Option<T>)| match e.1 {
        Some(v) => Some(NetworkData { source: e.0, inner: v }),
        None => None::<NetworkData<T>>,
    };
    if s.len() > 0 {
        lemma_decoded_data_append(s.drop_last(), seq![s.last()]);
        assert(s.drop_last() + seq![s.last()] =~= s);
        lemma_decoded_data_keeps_every_decoded(s.drop_last());
        reveal_with_fuel(decoded_data, 2);
        assert(seq![s.last()].drop_first() =~= Seq::<(ConnectionId, Option<T>)>::empty());
        assert(s.filter_map(f) == (match f(s.last()) {
            Some(x) => s.drop_last().filter_map(f) + seq![x],
            None => s.drop_last().filter_map(f),
        }));
        match s.last().1 {
            Some(v) => {
                assert(decoded_data(seq![s.last()]) =~= seq![NetworkData { source: s.last().0, inner: v }]);
            },
            None => {
                assert(decoded_data(seq![s.last()]) =~= Seq::<NetworkData<T>>::empty());
                assert(decoded_data(s.drop_last()) + Seq::<NetworkData<T>>::empty() =~= decoded_data(s.drop_last()));
            },
        }
    }
}

/// Decoding two batches one after the other gives the events of the first, then those of the
/// second.
pub proof fn lemma_decoded_data_append<T>(a: Seq<(ConnectionId, Option<T>)>, b: Seq<(ConnectionId, Option<T>)>)
    ensures
        decoded_data(a + b) == decoded_data(a) + decoded_data(b),
    decreases a.len(),
{
    if a.len() == 0 {
        assert(a + b =~= b);
        assert(decoded_data(a) + decoded_data(b) =~= decoded_data(b));
    } else {
        lemma_decoded_data_append(a.drop_first(), b);
        assert((a + b).drop_first() =~= a.drop_first() + b);
        assert((a + b)[0] == a[0]);
        match a[0].1 {
            Some(v) => {
                assert(seq![NetworkData { source: a[0].0, inner: v }] + (decoded_data(a.drop_first()) + decoded_data(b))
                    =~= (seq![NetworkData { source: a[0].0, inner: v }] + decoded_data(a.drop_first())) + decoded_data(b));
            },
            None => {},
        }
    }
}

/// A message to clients that are all connected, such as a broadcast, never fails for a
/// missing client: every target takes the packet, or serialization fails, or a connection
/// does not take the packet.
pub proof fn lemma_send_to_connected_never_misses(
    t: Seq<ConnectionId>,
    senders: Map<u32, Sender<NetworkPacket>>,
    kind: Seq<char>,
    data: Option<SerializedDataView>,
    sends: Seq<SendRecord<NetworkPacket>>,
    err: Option<(Seq<char>, Seq<char>)>,
)
    requires
        send_outcome(t, senders, kind, data, sends, err),
        forall|i: int| 0 <= i < t.len() ==> senders.contains_key(#[trigger] t[i].id),
    ensures
        err is None ==> sends.len() == t.len(),
        err matches Some(e) ==> e.0 == kind && (
            (data is None && e.1 == serialize_failed_text())
            || (sends.len() > 0 && (sends.last().failure() matches Some(f) && e.1 == send_failed_text(f)))),
{
    if sends.len() < t.len() {
        assert(senders.contains_key(t[sends.len() as int].id));
    }
}

} // verus!
