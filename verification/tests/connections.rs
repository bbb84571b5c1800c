use bevy_eventwork::managers::NetworkInstance;
use bevy_eventwork::{ConnectionId, NetworkError, NetworkEvent, NetworkPacket, NetworkSerializedData};

fn packet(kind: &str, bytes: &[u8]) -> NetworkPacket {
    NetworkPacket { kind: kind.to_string(), data: NetworkSerializedData::Binary(bytes.to_vec()) }
}

fn accept(net: &mut NetworkInstance) -> (ConnectionId, async_channel::Receiver<NetworkPacket>) {
    let (tx, rx) = async_channel::unbounded();
    (net.accept_connection(tx).0, rx)
}

#[test]
fn connection_id_text() {
    assert_eq!(ConnectionId { id: 42 }.to_string(), "Connection with ID=42");
    assert_eq!(ConnectionId { id: 0 }.to_string(), "Connection with ID=0");
    assert_eq!(ConnectionId { id: u32::MAX }.to_string(), "Connection with ID=4294967295");
}

#[test]
fn new_network_is_empty() {
    let net = NetworkInstance::new();
    assert!(!net.has_connections());
    assert!(!net.is_listening());
    assert_eq!(net.connected_clients(), 0);
    assert_eq!(net.connection_count(), 0);
    assert_eq!(net.to_string(), "Network [0 Connected Clients]");
}

#[test]
fn accepted_connections_get_increasing_ids() {
    let mut net = NetworkInstance::new();
    let (a, _ra) = accept(&mut net);
    let (b, _rb) = accept(&mut net);
    let (c, _rc) = accept(&mut net);
    assert_eq!((a.id, b.id, c.id), (0, 1, 2));
    assert!(net.has_connections());
    assert_eq!(net.connected_clients(), 3);
    assert_eq!(net.to_string(), "Network [3 Connected Clients]");
    assert!(net.disconnect(b).is_ok());
    let (d, _rd) = accept(&mut net);
    assert_eq!(d.id, 3);
}

#[test]
fn disconnect_unknown_connection_fails() {
    let mut net = NetworkInstance::new();
    let (a, _ra) = accept(&mut net);
    assert_eq!(net.disconnect(ConnectionId { id: 7 }), Err(NetworkError::ConnectionNotFound(ConnectionId { id: 7 })));
    assert_eq!(net.disconnect(a), Ok(()));
    assert_eq!(net.disconnect(a), Err(NetworkError::ConnectionNotFound(a)));
    assert!(!net.has_connections());
}

#[test]
fn broadcast_targets_every_connection_once() {
    let mut net = NetworkInstance::new();
    let (a, _ra) = accept(&mut net);
    let (b, _rb) = accept(&mut net);
    let (c, _rc) = accept(&mut net);
    net.disconnect(b).unwrap();
    let msg = net.broadcast(5u8);
    let mut ids: Vec<u32> = msg.clients().iter().map(|c| c.id).collect();
    ids.sort();
    assert_eq!(ids, vec![a.id, c.id]);
    assert_eq!(*msg.message(), 5u8);
}

#[test]
fn stop_is_idempotent_and_reports_disconnections() {
    let mut net = NetworkInstance::new();
    assert!(!net.stop().0);
    assert!(!net.listen().0);
    assert!(net.is_listening());
    let (a, _ra) = accept(&mut net);
    let (b, _rb) = accept(&mut net);
    net.register_message_kind("chat".to_string());
    assert!(net.stop().0);
    assert!(!net.is_listening());
    assert!(!net.has_connections());
    assert!(!net.is_registered("chat"));
    assert!(!net.stop().0);
    let mut reported = Vec::new();
    while let Some(ev) = net.next_disconnection() {
        reported.push(ev);
    }
    reported.sort_by_key(|e| match e {
        NetworkEvent::Disconnected(c) | NetworkEvent::Connected(c) => c.id,
    });
    assert_eq!(reported, vec![NetworkEvent::Disconnected(a), NetworkEvent::Disconnected(b)]);
    assert_eq!(net.next_disconnection(), None);
}

#[test]
fn listen_twice_stops_the_first_listener() {
    let mut net = NetworkInstance::new();
    assert!(!net.listen().0);
    let (_a, _ra) = accept(&mut net);
    assert!(net.listen().0);
    assert!(net.is_listening());
    assert!(!net.has_connections());
}

#[test]
fn listen_again_reports_each_dropped_connection() {
    let mut net = NetworkInstance::new();
    assert!(!net.listen().0);
    let (a, _ra) = accept(&mut net);
    assert!(net.listen().0);
    assert_eq!(net.next_disconnection(), Some(NetworkEvent::Disconnected(a)));
    assert_eq!(net.next_disconnection(), None);
    assert!(net.is_listening());
}

#[test]
fn disconnection_reports_remove_connections() {
    let mut net = NetworkInstance::new();
    let (a, _ra) = accept(&mut net);
    let (b, _rb) = accept(&mut net);
    net.disconnected_sender().try_send(a).unwrap();
    assert_eq!(net.next_disconnection(), Some(NetworkEvent::Disconnected(a)));
    assert_eq!(net.next_disconnection(), None);
    assert_eq!(net.connected_clients(), 1);
    assert!(net.connection_sender(b).is_some());
    assert!(net.connection_sender(a).is_none());
}

#[test]
fn task_ids_count_up() {
    let mut net = NetworkInstance::new();
    assert_eq!(net.next_task_id(), 0);
    assert_eq!(net.next_task_id(), 1);
    assert_eq!(net.next_task_id(), 2);
}

#[test]
fn messages_are_kept_per_kind_in_arrival_order() {
    let mut net = NetworkInstance::new();
    assert!(net.take_messages("chat").is_none());
    net.register_message_kind("chat".to_string());
    net.register_message_kind("move".to_string());
    assert!(net.is_registered("chat"));
    let a = ConnectionId { id: 1 };
    let b = ConnectionId { id: 2 };
    assert!(net.route_packet(a, packet("chat", &[1])));
    assert!(net.route_packet(b, packet("move", &[2])));
    assert!(net.route_packet(b, packet("chat", &[3])));
    assert!(!net.route_packet(a, packet("unknown", &[4])));
    let chat = net.take_messages("chat").unwrap();
    let got: Vec<(u32, Vec<u8>)> = chat
        .into_iter()
        .map(|(c, d)| match d {
            NetworkSerializedData::Binary(b) => (c.id, b),
            NetworkSerializedData::Text(_) => panic!("unexpected text"),
        })
        .collect();
    assert_eq!(got, vec![(1, vec![1]), (2, vec![3])]);
    assert_eq!(net.take_messages("chat").unwrap().len(), 0);
    assert_eq!(net.take_messages("move").unwrap().len(), 1);
    assert!(net.take_messages("unknown").is_none());
}

#[test]
fn second_registration_is_refused_and_keeps_the_queue() {
    let mut net = NetworkInstance::new();
    assert!(net.register_message_kind("chat".to_string()));
    assert!(net.route_packet(ConnectionId { id: 0 }, packet("chat", &[7])));
    assert!(!net.register_message_kind("chat".to_string()));
    assert_eq!(net.take_messages("chat").unwrap().len(), 1);
}

#[test]
fn accepting_announces_the_connection() {
    let mut net = NetworkInstance::new();
    let (tx, _rx) = async_channel::unbounded();
    let (id, event) = net.accept_connection(tx);
    assert_eq!(id, ConnectionId { id: 0 });
    assert_eq!(event, NetworkEvent::Connected(id));
}

#[test]
fn lost_connection_is_reported_even_when_unknown() {
    let mut net = NetworkInstance::new();
    let (a, _ra) = accept(&mut net);
    assert_eq!(net.connection_lost(a), NetworkEvent::Disconnected(a));
    assert!(!net.has_connections());
    let ghost = ConnectionId { id: 12 };
    assert_eq!(net.connection_lost(ghost), NetworkEvent::Disconnected(ghost));
}

#[test]
fn broadcast_to_connected_clients_never_misses() {
    let mut net = NetworkInstance::new();
    let (_a, ra) = accept(&mut net);
    let (_b, rb) = accept(&mut net);
    let msg = net.broadcast(());
    let err = bevy_eventwork::managers::network::send_message(
        &net,
        &msg,
        "news",
        &Ok(NetworkSerializedData::Text("hi".to_string())),
    )
    .0;
    assert!(err.is_none());
    assert_eq!(ra.try_recv().unwrap().kind, "news");
    assert_eq!(rb.try_recv().unwrap().kind, "news");
}
