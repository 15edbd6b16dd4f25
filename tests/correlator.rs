use holochain_client::{ConductorApiError, FrameAction, InboundFrame, ReplyBody, RequestCorrelator};

#[test]
fn replies_in_reverse_order_reach_their_callers() {
    let mut c: RequestCorrelator<&str> = RequestCorrelator::new();
    let a = c.register("caller a").unwrap();
    let b = c.register("caller b").unwrap();
    assert_ne!(a, b);
    match c.on_frame(InboundFrame::Reply { request_id: b, body: ReplyBody::Success(vec![2]) }) {
        FrameAction::Deliver(d) => {
            assert_eq!(d.slot, "caller b");
            assert_eq!(d.result.unwrap(), vec![2]);
        }
        _ => panic!("expected a delivery"),
    }
    match c.on_frame(InboundFrame::Reply { request_id: a, body: ReplyBody::Success(vec![1]) }) {
        FrameAction::Deliver(d) => {
            assert_eq!(d.slot, "caller a");
            assert_eq!(d.result.unwrap(), vec![1]);
        }
        _ => panic!("expected a delivery"),
    }
    assert!(c.pending.is_empty());
}

#[test]
fn stray_reply_is_an_anomaly() {
    let mut c: RequestCorrelator<u8> = RequestCorrelator::new();
    let a = c.register(1).unwrap();
    match c.on_frame(InboundFrame::Reply { request_id: a + 10, body: ReplyBody::Success(vec![]) }) {
        FrameAction::Anomaly { request_id } => assert_eq!(request_id, a + 10),
        _ => panic!("expected an anomaly"),
    }
    assert_eq!(c.pending.len(), 1);
}

#[test]
fn host_error_is_a_wire_error() {
    let mut c: RequestCorrelator<u8> = RequestCorrelator::new();
    let a = c.register(1).unwrap();
    match c.on_frame(InboundFrame::Reply { request_id: a, body: ReplyBody::Error(vec![7, 7]) }) {
        FrameAction::Deliver(d) => match d.result {
            Err(ConductorApiError::ExternalApiWireError(p)) => assert_eq!(p, vec![7, 7]),
            _ => panic!("expected a wire error"),
        },
        _ => panic!("expected a delivery"),
    }
}

#[test]
fn push_frames_go_to_the_router() {
    let mut c: RequestCorrelator<u8> = RequestCorrelator::new();
    c.register(1).unwrap();
    match c.on_frame(InboundFrame::Push(vec![4, 5])) {
        FrameAction::Signal(b) => assert_eq!(b, vec![4, 5]),
        _ => panic!("expected a signal"),
    }
    assert_eq!(c.pending.len(), 1);
}

#[test]
fn close_fails_pending_and_new_requests() {
    let mut c: RequestCorrelator<u8> = RequestCorrelator::new();
    c.register(1).unwrap();
    c.register(2).unwrap();
    let done = c.close();
    assert_eq!(done.len(), 2);
    assert_eq!(done[0].slot, 1);
    assert_eq!(done[1].slot, 2);
    for d in &done {
        assert!(matches!(d.result, Err(ConductorApiError::TransportClosed)));
    }
    assert!(matches!(c.register(3), Err(ConductorApiError::TransportClosed)));
    assert!(c.pending.is_empty());
    assert!(!c.open);
}

#[test]
fn request_ids_are_distinct() {
    let mut c: RequestCorrelator<u32> = RequestCorrelator::new();
    let mut ids = Vec::new();
    for i in 0..100 {
        ids.push(c.register(i).unwrap());
    }
    let mut sorted = ids.clone();
    sorted.dedup();
    assert_eq!(sorted.len(), 100);
}
