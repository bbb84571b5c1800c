//! Identifiers of connections, packets, events and errors.

use crate::serialize::NetworkSerializedData;
use vstd::prelude::*;

verus! {

/// The character of a decimal digit.
pub open spec fn digit_char(d: nat) -> char {
    if d == 0 { '0' }
    else if d == 1 { '1' }
    else if d == 2 { '2' }
    else if d == 3 { '3' }
    else if d == 4 { '4' }
    else if d == 5 { '5' }
    else if d == 6 { '6' }
    else if d == 7 { '7' }
    else if d == 8 { '8' }
    else { '9' }
}

/// The decimal text of a natural number, most significant digit first, without leading zeros.
pub open spec fn decimal_text(n: nat) -> Seq<char>
    decreases n,
{
    if n < 10 {
        seq![digit_char(n)]
    } else {
        decimal_text(n / 10).push(digit_char(n % 10))
    }
}

/// The text under which a connection id is displayed: `Connection with ID=<id>`.
pub open spec fn connection_id_text(id: u32) -> Seq<char> {
    "Connection with ID="@ + decimal_text(id as nat)
}

fn digit_str(d: u64) -> (s: &'static str)
    requires
        d < 10,
    ensures
        s@ == seq![digit_char(d as nat)],
{
    if d == 0 {
        proof { reveal_strlit("0"); }
        "0"
    } else if d == 1 {
        proof { reveal_strlit("1"); }
        "1"
    } else if d == 2 {
        proof { reveal_strlit("2"); }
        "2"
    } else if d == 3 {
        proof { reveal_strlit("3"); }
        "3"
    } else if d == 4 {
        proof { reveal_strlit("4"); }
        "4"
    } else if d == 5 {
        proof { reveal_strlit("5"); }
        "5"
    } else if d == 6 {
        proof { reveal_strlit("6"); }
        "6"
    } else if d == 7 {
        proof { reveal_strlit("7"); }
        "7"
    } else if d == 8 {
        proof { reveal_strlit("8"); }
        "8"
    } else {
        proof { reveal_strlit("9"); }
        "9"
    }
}

/// Appends the decimal text of `n` to `s`.
pub fn push_decimal(s: &mut String, n: u64)
    ensures
        final(s)@ == old(s)@ + decimal_text(n as nat),
    decreases n,
{
    if n >= 10 {
        push_decimal(s, n / 10);
    }
    s.append(digit_str(n % 10));
    assert(old(s)@ + decimal_text(n as nat) =~= old(s)@ + (if n >= 10 {
        decimal_text((n / 10) as nat)
    } else {
        Seq::<char>::empty()
    }) + seq![digit_char((n % 10) as nat)]);
}

/// The id of a connection, handed out in increasing order as connections are accepted.
#[derive(Clone, Copy, Debug, PartialEq, Eq, Hash, Structural)]
pub struct ConnectionId {
    /// The key of the connection.
    pub id: u32,
}

impl ConnectionId {
    /// The display text of the id, `Connection with ID=<id>`.
    pub fn to_string(&self) -> (s: String)
        ensures
            s@ == connection_id_text(self.id),
    {
        let mut s = String::from_str("Connection with ID=");
        push_decimal(&mut s, self.id as u64);
        s
    }
}

/// A packet exchanged with a remote app: the name of the message kind and its serialized body.
#[derive(Clone, Debug)]
pub struct NetworkPacket {
    /// The name of the message kind.
    pub kind: String,
    /// The serialized message.
    pub data: NetworkSerializedData,
}

impl NetworkPacket {
    /// The packet of kind `kind` that carries a copy of `data`.
    pub fn packet_for(kind: &str, data: &NetworkSerializedData) -> (p: NetworkPacket)
        ensures
            p.kind@ == kind@,
            p.data@ == data@,
    {
        NetworkPacket { kind: String::from_str(kind), data: data.duplicate() }
    }
}

/// A message received from a connection.
#[derive(Debug)]
pub struct NetworkData<T> {
    /// The connection the message came from.
    pub source: ConnectionId,
    /// The message itself.
    pub inner: T,
}

impl<T> NetworkData<T> {
    /// Wraps a message received from `source`.
    pub fn new(source: ConnectionId, inner: T) -> (d: Self)
        ensures
            d.source == source,
            d.inner == inner,
    {
        NetworkData { source, inner }
    }

    /// The connection the message came from.
    pub fn source(&self) -> (s: &ConnectionId)
        ensures
            *s == self.source,
    {
        &self.source
    }

    /// The message itself.
    pub fn inner(&self) -> (i: &T)
        ensures
            *i == self.inner,
    {
        &self.inner
    }

    /// Consumes the wrapper and returns the message.
    pub fn into_inner(self) -> (i: T)
        ensures
            i == self.inner,
    {
        self.inner
    }
}

/// Changes in the set of connections.
#[derive(Debug, PartialEq, Eq, Structural)]
pub enum NetworkEvent {
    /// A new connection was accepted.
    Connected(ConnectionId),
    /// A connection went away.
    Disconnected(ConnectionId),
}

/// Errors of network operations.
#[derive(Debug, PartialEq, Eq, Structural)]
pub enum NetworkError {
    /// No connection with this id is established.
    ConnectionNotFound(ConnectionId),
    /// A message could not be serialized.
    Serialization,
    /// A packet could not be handed to a connection.
    SendError,
}

} // verus!
