use websocket_source_v1::metrics::{route_request, GprcMessageKind, MetricsRoute};
use websocket_source_v1::update::GrpcUpdate;

#[test]
fn kinds_have_their_labels() {
    let all = [
        (GprcMessageKind::Account, "account"),
        (GprcMessageKind::Slot, "slot"),
        (GprcMessageKind::Transaction, "transaction"),
        (GprcMessageKind::TransactionStatus, "transactionstatus"),
        (GprcMessageKind::Block, "block"),
        (GprcMessageKind::Ping, "ping"),
        (GprcMessageKind::Pong, "pong"),
        (GprcMessageKind::BlockMeta, "blockmeta"),
        (GprcMessageKind::Entry, "entry"),
        (GprcMessageKind::Unknown, "unknown"),
    ];
    for (kind, label) in all {
        assert_eq!(kind.as_str(), label);
    }
}

#[test]
fn update_kinds() {
    let cases = [
        (GrpcUpdate::Account { slot: 1, owner: None }, "account"),
        (GrpcUpdate::Slot { slot: 1 }, "slot"),
        (GrpcUpdate::Transaction { slot: 1 }, "transaction"),
        (GrpcUpdate::TransactionStatus { slot: 1 }, "transactionstatus"),
        (GrpcUpdate::Block { slot: 1 }, "block"),
        (GrpcUpdate::Ping, "ping"),
        (GrpcUpdate::Pong, "pong"),
        (GrpcUpdate::BlockMeta { slot: 1 }, "blockmeta"),
        (GrpcUpdate::Entry { slot: 1 }, "entry"),
    ];
    for (update, label) in cases.iter() {
        assert_eq!(GprcMessageKind::from(update).as_str(), *label);
    }
}

#[test]
fn only_metrics_path_is_served() {
    assert_eq!(route_request("/metrics"), MetricsRoute::Metrics);
    assert_eq!(route_request("/"), MetricsRoute::NotFound);
    assert_eq!(route_request("/metrics/"), MetricsRoute::NotFound);
    assert_eq!(route_request("/METRICS"), MetricsRoute::NotFound);
}

#[test]
fn update_slot_and_owner() {
    let owner = vec![7u8; 32];
    let account = GrpcUpdate::Account { slot: 9, owner: Some(owner.clone()) };
    assert_eq!(account.relayed_slot(), Some(9));
    assert_eq!(account.owner(), owner);
    assert_eq!(GrpcUpdate::Account { slot: 9, owner: None }.owner(), Vec::<u8>::new());
    assert_eq!(GrpcUpdate::Entry { slot: 3 }.relayed_slot(), Some(3));
    assert_eq!(GrpcUpdate::Entry { slot: 3 }.owner(), Vec::<u8>::new());
    assert_eq!(GrpcUpdate::Ping.relayed_slot(), None);
    assert_eq!(GrpcUpdate::Pong.relayed_slot(), None);
}
