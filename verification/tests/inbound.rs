use websocket_source_v1::digest::sha256;
use websocket_source_v1::kafka::inbound::{acks_ping, dedup_inbound, grpc_inbound, ws_inbound};
use websocket_source_v1::kafka::keys::grpc_record_key;
use websocket_source_v1::kafka::relay::Inbound;
use websocket_source_v1::update::GrpcUpdate;

#[test]
fn websocket_frames() {
    assert_eq!(ws_inbound(true, false), Inbound::Close);
    assert_eq!(ws_inbound(false, false), Inbound::Skip);
    assert_eq!(ws_inbound(false, true), Inbound::Forward);
}

#[test]
fn grpc_updates() {
    assert_eq!(grpc_inbound(&GrpcUpdate::Ping), Inbound::Skip);
    assert_eq!(grpc_inbound(&GrpcUpdate::Pong), Inbound::Skip);
    assert_eq!(grpc_inbound(&GrpcUpdate::Block { slot: 4 }), Inbound::Forward);
    assert_eq!(grpc_inbound(&GrpcUpdate::Account { slot: 4, owner: None }), Inbound::Forward);
}

#[test]
fn dedup_records() {
    let key = grpc_record_key(77, b"payload");
    let k = dedup_inbound(Some(&key), true).unwrap();
    assert_eq!((k.slot, k.hash), (77, sha256(b"payload")));
    assert!(dedup_inbound(Some(&key), false).is_none());
    assert!(dedup_inbound(None, true).is_none());
    assert!(dedup_inbound(Some("77"), true).is_none());
}

#[test]
fn only_ping_is_acknowledged() {
    assert!(acks_ping(&GrpcUpdate::Ping));
    assert!(!acks_ping(&GrpcUpdate::Pong));
    assert!(!acks_ping(&GrpcUpdate::Slot { slot: 1 }));
    assert!(!acks_ping(&GrpcUpdate::Account { slot: 1, owner: None }));
}
