use lores_app_node::backoff::{Backoff, BACKOFF_MAX_SECS, BACKOFF_MIN_SECS};
use lores_app_node::consumer::{DrainStep, OperationDrain, StreamItem};
use lores_app_node::errors::{map_store_error, NodeError, NodeErrorKind, PandaFailure, PublishError, StoreError};
use lores_app_node::grpc::{local_publish_result, publish_result, stream_item};
use lores_app_node::node::{payload_or_error, publish_outcome, PublishOutcome};
use lores_app_node::subscription::{LiveSubscription, StreamEndAction, SubscribeAction};

fn unavailable() -> NodeError {
    NodeError::GrpcUnavailable("down".to_string())
}

#[test]
fn map_store_error_keeps_region_message() {
    match map_store_error(StoreError::RegionNotBound("bind me".to_string())) {
        NodeError::RegionNotBound(m) => assert_eq!(m, "bind me"),
        other => panic!("unexpected {other:?}"),
    }
}

#[test]
fn map_store_error_hides_other_details() {
    match map_store_error(StoreError::Other("connection refused".to_string())) {
        NodeError::GrpcUnavailable(m) => {
            assert_eq!(m, "Could not connect to the LoRes Node for this server")
        }
        other => panic!("unexpected {other:?}"),
    }
}

#[test]
fn error_messages_and_kinds() {
    assert_eq!(StoreError::Other("x".into()).message(), "x");
    assert_eq!(StoreError::RegionNotBound("y".into()).message(), "y");
    assert_eq!(NodeError::RegionNotBound("z".into()).message(), "z");
    assert_eq!(NodeError::RegionNotBound("z".into()).kind(), NodeErrorKind::RegionNotBound);
    assert_eq!(unavailable().kind(), NodeErrorKind::GrpcUnavailable);
    assert_eq!(PublishError("boom".into()).message(), "boom");
}

#[test]
fn serialization_failure_message() {
    match StoreError::serialization_failure("key must be a string") {
        StoreError::Other(m) => assert_eq!(m, "Failed to serialize operation: key must be a string"),
        other => panic!("unexpected {other:?}"),
    }
}

#[test]
fn panda_failures_become_store_errors() {
    assert!(matches!(
        StoreError::from_panda(PandaFailure::RegionNotBound("no region".into())),
        StoreError::RegionNotBound(m) if m == "no region"
    ));
    assert!(matches!(
        StoreError::from_panda(PandaFailure::Rpc("status: Unavailable".into())),
        StoreError::Other(m) if m == "status: Unavailable"
    ));
}

#[test]
fn backoff_doubles_up_to_cap() {
    let mut b = Backoff::new();
    assert_eq!(b.current_secs(), BACKOFF_MIN_SECS);
    let sleeps: Vec<u64> = (0..9).map(|_| b.advance(&unavailable())).collect();
    assert_eq!(sleeps, vec![1, 2, 4, 8, 16, 32, 60, 60, 60]);
    assert_eq!(b.current_secs(), BACKOFF_MAX_SECS);
}

#[test]
fn backoff_restarts_when_kind_changes() {
    let mut b = Backoff::new();
    assert_eq!(b.advance(&unavailable()), 1);
    assert_eq!(b.advance(&unavailable()), 2);
    assert_eq!(b.advance(&unavailable()), 4);
    assert_eq!(b.advance(&NodeError::RegionNotBound("r".into())), 1);
    assert_eq!(b.advance(&NodeError::RegionNotBound("r".into())), 2);
    assert_eq!(b.advance(&unavailable()), 1);
}

#[test]
fn backoff_reset_returns_to_minimum() {
    let mut b = Backoff::new();
    b.advance(&unavailable());
    b.advance(&unavailable());
    b.reset();
    assert_eq!(b.current_secs(), 1);
    assert_eq!(b.advance(&unavailable()), 1);
}

#[test]
fn subscription_retries_with_backoff_then_clears_error() {
    let mut s = LiveSubscription::new();
    assert!(s.published().is_none());
    match s.try_subscribe(Err(StoreError::Other("refused".into()))) {
        SubscribeAction::Retry { error: NodeError::GrpcUnavailable(_), sleep_secs } => assert_eq!(sleep_secs, 1),
        other => panic!("unexpected {other:?}"),
    }
    match s.try_subscribe(Err(StoreError::Other("refused".into()))) {
        SubscribeAction::Retry { sleep_secs, .. } => assert_eq!(sleep_secs, 2),
        other => panic!("unexpected {other:?}"),
    }
    assert!(matches!(s.published(), Some(NodeError::GrpcUnavailable(_))));
    match s.try_subscribe(Err(StoreError::RegionNotBound("bind".into()))) {
        SubscribeAction::Retry { error: NodeError::RegionNotBound(m), sleep_secs } => {
            assert_eq!(m, "bind");
            assert_eq!(sleep_secs, 1);
        }
        other => panic!("unexpected {other:?}"),
    }
    assert!(matches!(s.try_subscribe(Ok(())), SubscribeAction::Drain));
    assert!(s.published().is_none());
    match s.try_subscribe(Err(StoreError::RegionNotBound("bind".into()))) {
        SubscribeAction::Retry { sleep_secs, .. } => assert_eq!(sleep_secs, 1),
        other => panic!("unexpected {other:?}"),
    }
}

#[test]
fn subscription_reports_mid_stream_failure() {
    let mut s = LiveSubscription::new();
    s.try_subscribe(Err(StoreError::Other("a".into())));
    s.try_subscribe(Err(StoreError::Other("a".into())));
    assert!(matches!(s.try_subscribe(Ok(())), SubscribeAction::Drain));
    assert!(matches!(s.stream_ended(Ok(3)), StreamEndAction::Reconnect));
    assert!(s.published().is_none());
    match s.stream_ended(Err(StoreError::Other("reset by peer".into()))) {
        StreamEndAction::ReportAndReconnect(NodeError::GrpcUnavailable(m)) => {
            assert_eq!(m, "Could not connect to the LoRes Node for this server")
        }
        other => panic!("unexpected {other:?}"),
    }
    assert!(matches!(s.published(), Some(NodeError::GrpcUnavailable(_))));
    match s.try_subscribe(Err(StoreError::Other("a".into()))) {
        SubscribeAction::Retry { sleep_secs, .. } => assert_eq!(sleep_secs, 1),
        other => panic!("unexpected {other:?}"),
    }
}

#[test]
fn drain_counts_decoded_and_skips_undecodable() {
    let mut d = OperationDrain::new();
    assert!(matches!(d.next(StreamItem::Decoded(7u32)), DrainStep::Broadcast(7)));
    assert!(matches!(d.next(StreamItem::<u32>::Undecodable("bad json".into())), DrainStep::Skip(m) if m == "bad json"));
    assert!(matches!(d.next(StreamItem::Decoded(9u32)), DrainStep::Broadcast(9)));
    assert_eq!(d.count(), 2);
    assert!(matches!(
        d.next(StreamItem::<u32>::Failed(StoreError::Other("gone".into()))),
        DrainStep::Stop(StoreError::Other(m)) if m == "gone"
    ));
    assert_eq!(d.count(), 2);
}

#[test]
fn publish_broadcasts_only_when_stored() {
    assert!(matches!(publish_outcome(Ok(()), "op"), PublishOutcome::Accepted("op")));
    assert!(matches!(
        publish_outcome(Err(StoreError::Other("db locked".into())), "op"),
        PublishOutcome::Rejected(StoreError::Other(m)) if m == "db locked"
    ));
}

#[test]
fn payload_or_error_wraps_serializer_failure() {
    assert_eq!(payload_or_error(Ok(vec![1, 2])).unwrap(), vec![1, 2]);
    match payload_or_error(Err("recursion limit".into())) {
        Err(StoreError::Other(m)) => assert_eq!(m, "Failed to serialize operation: recursion limit"),
        other => panic!("unexpected {other:?}"),
    }
}

#[test]
fn grpc_answers_become_store_results() {
    assert!(publish_result(Ok(())).is_ok());
    assert!(matches!(
        publish_result(Err(PandaFailure::RegionNotBound("unbound".into()))),
        Err(StoreError::RegionNotBound(m)) if m == "unbound"
    ));
    assert_eq!(stream_item(Ok(vec![5])).unwrap(), vec![5]);
    assert!(matches!(stream_item(Err("status".into())), Err(StoreError::Other(m)) if m == "status"));
    assert!(local_publish_result(Ok(12)).is_ok());
    assert!(matches!(local_publish_result(Err("disk full".into())), Err(StoreError::Other(m)) if m == "disk full"));
}

#[test]
fn failed_subscribes_wait_doubling_delays_up_to_a_minute() {
    let mut s = LiveSubscription::new();
    let mut sleeps = Vec::new();
    for _ in 0..8 {
        match s.try_subscribe(Err(StoreError::RegionNotBound("unbound".into()))) {
            SubscribeAction::Retry { sleep_secs, .. } => sleeps.push(sleep_secs),
            other => panic!("unexpected {other:?}"),
        }
    }
    assert_eq!(sleeps, vec![1, 2, 4, 8, 16, 32, 60, 60]);
}
