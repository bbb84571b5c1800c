use bevy_eventwork::channel::SendFailure;
use bevy_eventwork::managers::network_request::{
    create_request_handler, response_result, RequestInternal, ResponseInternal, ResponseMap,
};
use bevy_eventwork::NetworkPacket;
use bevy_eventwork::managers::NetworkInstance;
use bevy_eventwork::{ConnectionId, NetworkData, NetworkError, NetworkSerializedData};

#[test]
fn requests_get_increasing_ids() {
    let mut map: ResponseMap<u8> = ResponseMap::new();
    let (id0, _r0) = map.get_responder();
    let (id1, _r1) = map.get_responder();
    assert_eq!((id0, id1), (0, 1));
    let (msg, _r2) = map.send_request(ConnectionId { id: 4 }, "status");
    assert_eq!(msg.clients(), &vec![ConnectionId { id: 4 }]);
    assert_eq!(msg.message().id, 2);
    assert_eq!(msg.message().request, "status");
}

#[test]
fn response_reaches_its_request_once() {
    let mut map: ResponseMap<u32> = ResponseMap::default();
    let (id, response) = map.get_responder();
    let response = match response.try_recv() {
        Ok(_) => panic!("no response yet"),
        Err(back) => back,
    };
    assert!(matches!(map.deliver(ResponseInternal { response_id: id, response: 77 }).0, Ok(true)));
    assert!(matches!(map.deliver(ResponseInternal { response_id: id, response: 78 }).0, Ok(false)));
    match response.try_recv() {
        Ok(v) => assert_eq!(v, 77),
        Err(_) => panic!("response expected"),
    }
}

#[test]
fn response_to_unknown_request_is_dropped() {
    let mut map: ResponseMap<u32> = ResponseMap::new();
    assert!(matches!(map.deliver(ResponseInternal { response_id: 9, response: 1 }).0, Ok(false)));
}

#[test]
fn response_to_abandoned_request_fails() {
    let mut map: ResponseMap<u32> = ResponseMap::new();
    let (id, response) = map.get_responder();
    drop(response);
    match map.deliver(ResponseInternal { response_id: id, response: 5 }).0 {
        Err(SendFailure::Closed(v)) => assert_eq!(v, 5),
        _ => panic!("closed channel expected"),
    }
}

#[test]
fn request_handler_needs_a_connected_source() {
    let mut net = NetworkInstance::new();
    let (tx, rx) = async_channel::unbounded();
    let a = net.accept_connection(tx).0;
    let data = NetworkData::new(ConnectionId { id: 9 }, RequestInternal { id: 3, request: 1u8 });
    assert!(create_request_handler(&net, data, "status_response".to_string()).is_none());

    let data = NetworkData::new(a, RequestInternal { id: 3, request: 1u8 });
    let req = create_request_handler(&net, data, "status_response".to_string()).unwrap();
    assert_eq!(*req.get_request(), 1u8);
    assert_eq!(*req.source(), a);
    let envelope = req.response_for(true);
    assert_eq!(envelope.response_id, 3);
    assert!(envelope.response);

    let copy = req.clone();
    assert_eq!(copy.respond(Err("bad".to_string())).0, Err(NetworkError::Serialization));
    assert_eq!(req.respond(Ok(NetworkSerializedData::Binary(vec![1]))).0, Ok(()));
    let packet = rx.try_recv().unwrap();
    assert_eq!(packet.kind, "status_response");
    assert!(matches!(packet.data, NetworkSerializedData::Binary(ref b) if b == &vec![1u8]));
    assert!(rx.try_recv().is_err());
}

#[test]
fn response_result_maps_send_outcomes() {
    let packet = NetworkPacket { kind: "r".to_string(), data: NetworkSerializedData::Binary(vec![]) };
    assert_eq!(response_result(Ok(())), Ok(()));
    assert_eq!(response_result(Err(SendFailure::Full(packet))), Err(NetworkError::SendError));
    let packet = NetworkPacket { kind: "r".to_string(), data: NetworkSerializedData::Binary(vec![]) };
    assert_eq!(response_result(Err(SendFailure::Closed(packet))), Err(NetworkError::SendError));
}

#[test]
fn respond_to_closed_connection_fails() {
    let mut net = NetworkInstance::new();
    let (tx, rx) = async_channel::unbounded();
    let a = net.accept_connection(tx).0;
    drop(rx);
    let data = NetworkData::new(a, RequestInternal { id: 0, request: () });
    let req = create_request_handler(&net, data, "r".to_string()).unwrap();
    assert_eq!(req.respond(Ok(NetworkSerializedData::Binary(vec![]))).0, Err(NetworkError::SendError));
}

#[test]
fn settle_hands_back_the_handle_without_a_response() {
    let mut map: ResponseMap<u8> = ResponseMap::new();
    let (_id, response) = map.get_responder();
    let response = match response.settle(None) {
        Ok(_) => panic!("no response was given"),
        Err(back) => back,
    };
    assert!(matches!(response.settle(Some(3)), Ok(3)));
}

#[test]
fn response_packet_carries_the_response_kind() {
    let mut net = NetworkInstance::new();
    let (tx, _rx) = async_channel::unbounded();
    let a = net.accept_connection(tx).0;
    let data = NetworkData::new(a, RequestInternal { id: 1, request: 0u8 });
    let req = create_request_handler(&net, data, "pong".to_string()).unwrap();
    let p = req.response_packet(NetworkSerializedData::Text("x".to_string()));
    assert_eq!(p.kind, "pong");
    assert!(matches!(p.data, NetworkSerializedData::Text(ref t) if t == "x"));
}
