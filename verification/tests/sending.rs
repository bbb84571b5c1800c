use bevy_eventwork::channel::SendFailure;
use bevy_eventwork::managers::network::{decoded_messages, send_message, send_result, MessageError, SendMessage};
use bevy_eventwork::managers::NetworkInstance;
use bevy_eventwork::serialize::{binary_payload, into_binary};
use bevy_eventwork::{ConnectionId, NetworkPacket, NetworkSerializedData};

fn binary(bytes: &[u8]) -> NetworkSerializedData {
    NetworkSerializedData::Binary(bytes.to_vec())
}

fn bytes_of(p: &NetworkPacket) -> Vec<u8> {
    match &p.data {
        NetworkSerializedData::Binary(b) => b.clone(),
        NetworkSerializedData::Text(_) => panic!("unexpected text"),
    }
}

#[test]
fn message_error_accessors() {
    let e = MessageError::new("chat".to_string(), "boom".to_string());
    assert_eq!(e.kind(), "chat");
    assert_eq!(e.error(), "boom");
}

#[test]
fn send_message_reaches_every_target() {
    let mut net = NetworkInstance::new();
    let (tx_a, rx_a) = async_channel::unbounded();
    let (tx_b, rx_b) = async_channel::unbounded();
    let a = net.accept_connection(tx_a).0;
    let b = net.accept_connection(tx_b).0;
    let event = SendMessage::new(vec![a, b], ());
    let err = send_message(&net, &event, "chat", &Ok(binary(&[9, 8]))).0;
    assert!(err.is_none());
    let pa = rx_a.try_recv().unwrap();
    let pb = rx_b.try_recv().unwrap();
    assert_eq!(pa.kind, "chat");
    assert_eq!(pb.kind, "chat");
    assert_eq!(bytes_of(&pa), vec![9, 8]);
    assert_eq!(bytes_of(&pb), vec![9, 8]);
    assert!(rx_a.try_recv().is_err());
}

#[test]
fn send_message_to_no_target_does_nothing() {
    let net = NetworkInstance::new();
    let event = SendMessage::new(vec![], ());
    assert!(send_message(&net, &event, "chat", &Err("never".to_string())).0.is_none());
}

#[test]
fn send_message_stops_at_unknown_client() {
    let mut net = NetworkInstance::new();
    let (tx_a, rx_a) = async_channel::unbounded();
    let a = net.accept_connection(tx_a).0;
    let event = SendMessage::new(vec![a, ConnectionId { id: 3 }, a], ());
    let err = send_message(&net, &event, "chat", &Ok(binary(&[1]))).0.unwrap();
    assert_eq!(err.kind(), "chat");
    assert_eq!(err.error(), "client not found: Connection with ID=3");
    assert!(rx_a.try_recv().is_ok());
    assert!(rx_a.try_recv().is_err());
}

#[test]
fn send_message_reports_serialization_failure() {
    let mut net = NetworkInstance::new();
    let (tx_a, rx_a) = async_channel::unbounded();
    let a = net.accept_connection(tx_a).0;
    let event = SendMessage::new(vec![a], ());
    let err = send_message(&net, &event, "chat", &Err("bad".to_string())).0.unwrap();
    assert_eq!(err.error(), "failed to serialize message");
    assert!(rx_a.try_recv().is_err());
}

#[test]
fn send_message_reports_closed_and_full_channels() {
    let mut net = NetworkInstance::new();
    let (tx_a, rx_a) = async_channel::unbounded::<NetworkPacket>();
    let a = net.accept_connection(tx_a).0;
    drop(rx_a);
    let event = SendMessage::new(vec![a], ());
    let err = send_message(&net, &event, "chat", &Ok(binary(&[1]))).0.unwrap();
    assert_eq!(err.error(), "There was an error sending a packet: sending into a closed channel");

    let (tx_b, _rx_b) = async_channel::bounded::<NetworkPacket>(1);
    let b = net.accept_connection(tx_b).0;
    let event = SendMessage::new(vec![b, b], ());
    let err = send_message(&net, &event, "chat", &Ok(binary(&[1]))).0.unwrap();
    assert_eq!(err.error(), "There was an error sending a packet: sending into a full channel");
}

#[test]
fn send_failure_texts() {
    assert_eq!(SendFailure::Full(()).text(), "sending into a full channel");
    assert_eq!(SendFailure::Closed(()).text(), "sending into a closed channel");
}

#[test]
fn undecodable_messages_are_dropped_in_order() {
    let a = ConnectionId { id: 1 };
    let b = ConnectionId { id: 2 };
    let out = decoded_messages(vec![(a, Some(10u8)), (b, None), (b, Some(30u8)), (a, None)]);
    let got: Vec<(u32, u8)> = out.iter().map(|d| (d.source().id, *d.inner())).collect();
    assert_eq!(got, vec![(1, 10), (2, 30)]);
    assert!(decoded_messages::<u8>(vec![]).is_empty());
}

#[test]
fn binary_payload_refuses_text() {
    let data = binary(&[1, 2, 3]);
    assert_eq!(binary_payload(&data).unwrap(), &vec![1, 2, 3]);
    let text = NetworkSerializedData::Text("hello".to_string());
    assert_eq!(binary_payload(&text).unwrap_err(), "Expected Binary data found String data");
}

#[test]
fn into_binary_wraps_bytes() {
    match into_binary(Ok(vec![4, 5])).unwrap() {
        NetworkSerializedData::Binary(b) => assert_eq!(b, vec![4, 5]),
        NetworkSerializedData::Text(_) => panic!("expected binary data"),
    }
    assert_eq!(into_binary(Err("oops".to_string())).unwrap_err(), "oops");
}

#[test]
fn packet_for_copies_kind_and_data() {
    let data = binary(&[7, 7]);
    let p = NetworkPacket::packet_for("move", &data);
    assert_eq!(p.kind, "move");
    assert_eq!(bytes_of(&p), vec![7, 7]);
    match NetworkSerializedData::Text("t".to_string()).duplicate() {
        NetworkSerializedData::Text(t) => assert_eq!(t, "t"),
        NetworkSerializedData::Binary(_) => panic!("expected text"),
    }
}

#[test]
fn send_result_names_the_failure() {
    assert!(send_result("chat", Ok(())).is_none());
    let e = send_result("chat", Err(SendFailure::Full(NetworkPacket::packet_for("chat", &binary(&[])))))
        .unwrap();
    assert_eq!(e.kind(), "chat");
    assert_eq!(e.error(), "There was an error sending a packet: sending into a full channel");
    let e = send_result("chat", Err(SendFailure::Closed(NetworkPacket::packet_for("chat", &binary(&[])))))
        .unwrap();
    assert_eq!(e.error(), "There was an error sending a packet: sending into a closed channel");
}
