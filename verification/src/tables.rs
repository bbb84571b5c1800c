//! The two `dashmap::DashMap`s the network keeps: the senders of the established
//! connections, keyed by connection id, and the queues of received messages, keyed by
//! message kind.
//!
//! Each table's contents get a name; the trusted wrappers below state, over that name,
//! what each `DashMap` method does to the contents. The wrappers take the map by `&mut`
//! although `DashMap` only needs `&`, so that every change is visible to the verifier.

use crate::connection::{ConnectionId, NetworkPacket};
use crate::serialize::NetworkSerializedData;
use async_channel::Sender;
use dashmap::DashMap;
use vstd::prelude::*;

verus! {

#[verifier::external_type_specification]
#[verifier::external_body]
#[verifier::reject_recursive_types(K)]
#[verifier::reject_recursive_types(V)]
#[verifier::reject_recursive_types(S)]
pub struct ExDashMap<K, V, S>(dashmap::DashMap<K, V, S>);

/// The sender held under each connection id in a connection table.
pub uninterp spec fn connection_senders(m: DashMap<u32, Sender<NetworkPacket>>) -> Map<u32, Sender<NetworkPacket>>;

/// The queue of received messages held under each message kind.
pub uninterp spec fn message_queues(
    m: DashMap<String, Vec<(ConnectionId, NetworkSerializedData)>>,
) -> Map<Seq<char>, Seq<(ConnectionId, NetworkSerializedData)>>;

/// `DashMap::new`: the new table has no entry.
#[verifier::external_body]
pub(crate) fn table_new() -> (m: DashMap<u32, Sender<NetworkPacket>>)
    ensures
        connection_senders(m).dom() == Set::<u32>::empty(),
{
    DashMap::new()
}

/// `DashMap::insert`: afterwards `tx` is held under `id`; other entries stay.
#[verifier::external_body]
pub(crate) fn table_insert(m: &mut DashMap<u32, Sender<NetworkPacket>>, id: u32, tx: Sender<NetworkPacket>)
    ensures
        connection_senders(*final(m)) == connection_senders(*old(m)).insert(id, tx),
{
    m.insert(id, tx);
}

/// `DashMap::remove`: the entry of `id` is gone, and the sender it held is returned exactly
/// when there was one.
#[verifier::external_body]
pub(crate) fn table_remove(m: &mut DashMap<u32, Sender<NetworkPacket>>, id: u32) -> (r: Option<Sender<NetworkPacket>>)
    ensures
        connection_senders(*final(m)) == connection_senders(*old(m)).remove(id),
        match r {
            Some(tx) => connection_senders(*old(m)).contains_key(id) && tx == connection_senders(*old(m))[id],
            None => !connection_senders(*old(m)).contains_key(id),
        },
{
    m.remove(&id).map(|entry| entry.1)
}

/// `DashMap::get`, with the sender of the entry cloned out of the read guard: exactly when
/// `id` has an entry, the sender held there is returned. A clone of a sender holds the same
/// pointer to the same channel as the original, so it is the same value.
#[verifier::external_body]
pub(crate) fn table_get(m: &DashMap<u32, Sender<NetworkPacket>>, id: u32) -> (r: Option<Sender<NetworkPacket>>)
    ensures
        match r {
            Some(tx) => connection_senders(*m).contains_key(id) && tx == connection_senders(*m)[id],
            None => !connection_senders(*m).contains_key(id),
        },
{
    m.get(&id).map(|entry| entry.value().clone())
}

/// `DashMap::len`: the number of entries.
#[verifier::external_body]
pub(crate) fn table_len(m: &DashMap<u32, Sender<NetworkPacket>>) -> (n: usize)
    ensures
        n == connection_senders(*m).dom().len(),
{
    m.len()
}

/// `DashMap::clear`: no entry is left.
#[verifier::external_body]
pub(crate) fn table_clear(m: &mut DashMap<u32, Sender<NetworkPacket>>)
    ensures
        connection_senders(*final(m)).dom() == Set::<u32>::empty(),
{
    m.clear();
}

/// `DashMap::iter`, keeping the key of each entry: every id with an entry, each once, in
/// the map's own order, which is not stated.
#[verifier::external_body]
pub(crate) fn table_keys(m: &DashMap<u32, Sender<NetworkPacket>>) -> (ids: Vec<u32>)
    ensures
        ids@.to_set() == connection_senders(*m).dom(),
        ids@.no_duplicates(),
{
    m.iter().map(|entry| *entry.key()).collect()
}

/// `DashMap::new`: the new table has no queue.
#[verifier::external_body]
pub(crate) fn queues_new() -> (m: DashMap<String, Vec<(ConnectionId, NetworkSerializedData)>>)
    ensures
        message_queues(m).dom() == Set::<Seq<char>>::empty(),
{
    DashMap::new()
}

/// `DashMap::contains_key`: whether a queue is held under `kind`.
#[verifier::external_body]
pub(crate) fn queues_contains(m: &DashMap<String, Vec<(ConnectionId, NetworkSerializedData)>>, kind: &str) -> (b: bool)
    ensures
        b == message_queues(*m).contains_key(kind@),
{
    m.contains_key(kind)
}

/// `DashMap::insert`: afterwards `queue` is held under `kind`; other queues stay.
#[verifier::external_body]
pub(crate) fn queues_insert(
    m: &mut DashMap<String, Vec<(ConnectionId, NetworkSerializedData)>>,
    kind: String,
    queue: Vec<(ConnectionId, NetworkSerializedData)>,
)
    ensures
        message_queues(*final(m)) == message_queues(*old(m)).insert(kind@, queue@),
{
    m.insert(kind, queue);
}

/// `DashMap::remove`: the queue held under `kind` is taken out and returned, when there is one.
#[verifier::external_body]
pub(crate) fn queues_remove(
    m: &mut DashMap<String, Vec<(ConnectionId, NetworkSerializedData)>>,
    kind: &str,
) -> (r: Option<Vec<(ConnectionId, NetworkSerializedData)>>)
    ensures
        message_queues(*final(m)) == message_queues(*old(m)).remove(kind@),
        match r {
            Some(q) => message_queues(*old(m)).contains_key(kind@) && q@ == message_queues(*old(m))[kind@],
            None => !message_queues(*old(m)).contains_key(kind@),
        },
{
    m.remove(kind).map(|entry| entry.1)
}

/// `DashMap::clear`: no queue is left.
#[verifier::external_body]
pub(crate) fn queues_clear(m: &mut DashMap<String, Vec<(ConnectionId, NetworkSerializedData)>>)
    ensures
        message_queues(*final(m)).dom() == Set::<Seq<char>>::empty(),
{
    m.clear();
}

} // verus!
