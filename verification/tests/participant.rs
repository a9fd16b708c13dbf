use stream_mux::participant::Participant;
use stream_mux::send::SendEvent;
use stream_mux::shutdown::next_backoff_ms;
use stream_mux::types::{
    ProtocolEvent, StreamRecv, StreamSendError, PROMISE_ENCRYPTED, PROMISE_ORDERED,
    SEND_QUEUE_CAP,
};

/// Drives one side's outbound wire sends into the other side's recv manager.
fn deliver(remote: &mut Participant, event: ProtocolEvent) {
    match event {
        ProtocolEvent::OpenStream { sid, prio, promises, guaranteed_bandwidth } => {
            remote.handle_recv_open(sid, prio, promises, guaranteed_bandwidth);
        },
        ProtocolEvent::Message { sid, buffer, .. } => {
            remote.handle_recv_message(sid, buffer);
        },
        ProtocolEvent::CloseStream { sid } => {
            remote.handle_recv_close(sid);
        },
        ProtocolEvent::Shutdown => {},
    }
}

fn attached_pair() -> (Participant, Participant) {
    let mut local = Participant::new(1, 1000);
    let mut remote = Participant::new(2, 0);
    for p in [&mut local, &mut remote] {
        p.attach_channel(0);
        p.handle_add_send_protocol(0);
        p.handle_add_recv_protocol(0);
    }
    (local, remote)
}

#[test]
fn close_participant_cleanly() {
    let (mut local, mut remote) = attached_pair();
    assert_eq!(local.barrier_value(), 7);

    // The attach input closes, then shutdown begins.
    local.handle_attach_input_closed();
    assert_eq!(local.barrier_value(), 6);
    let cids = local.shutdown_begin();
    assert_eq!(cids, vec![0]);

    // The send manager closes each channel: flush, announce Shutdown, exit.
    let out = local.handle_close_send_protocol(0);
    assert!(out.exited);
    assert!(matches!(out.emit, Some(ws) if matches!(ws.event, ProtocolEvent::Shutdown)));
    assert_eq!(local.barrier_value(), 4);

    // The peer reciprocates: its recv sees Shutdown, its send closes, and its
    // own Shutdown comes back to our recv manager.
    let r = remote.handle_recv_channel_down(0);
    assert!(r);
    remote.handle_close_send_protocol(0);
    let exited = local.handle_recv_channel_down(0);
    assert!(exited);

    assert_eq!(local.barrier_value(), 0);
    assert!(local.shutdown_complete());
}

#[test]
fn close_participant_by_timeout() {
    let (mut local, _remote) = attached_pair();
    local.handle_attach_input_closed();
    let cids = local.shutdown_begin();
    for cid in &cids {
        local.handle_close_send_protocol(*cid);
    }
    // The peer never answers: the barrier stays above zero while the
    // coordinator polls with growing backoff, bounded by the timeout.
    assert!(!local.shutdown_complete());
    let timeout_ms = 1000;
    let mut backoff = 10;
    let mut waited = 0u64;
    while waited < timeout_ms {
        waited += backoff;
        backoff = next_backoff_ms(backoff, timeout_ms);
        assert!(!local.shutdown_complete());
    }
    // Timeout: force-close every recv half; the barrier must now drain.
    for cid in local.force_close_cids() {
        local.handle_force_close_recv(cid);
    }
    assert!(local.shutdown_complete());
}

#[test]
fn backoff_grows_and_caps() {
    assert_eq!(next_backoff_ms(10, 1000), 14);
    assert_eq!(next_backoff_ms(14, 1000), 19);
    assert_eq!(next_backoff_ms(19, 1000), 26);
    assert_eq!(next_backoff_ms(900, 1000), 1000);
    assert_eq!(next_backoff_ms(u64::MAX, 1000), 1000);
}

#[test]
fn create_stream() {
    let (mut local, _remote) = attached_pair();
    let (handle, ws) = local
        .handle_open_stream(7, PROMISE_ENCRYPTED, 1_000_000)
        .expect("open must be served before shutdown");
    assert_eq!(handle.sid, 1000);
    assert_eq!(ws.cid, 0);
    match ws.event {
        ProtocolEvent::OpenStream { sid, prio, promises, guaranteed_bandwidth } => {
            assert_eq!(sid, 1000);
            assert_eq!(prio, 7);
            assert_eq!(promises, PROMISE_ENCRYPTED);
            assert_eq!(guaranteed_bandwidth, 1_000_000);
        },
        _ => panic!("wrong event"),
    }
}

#[test]
fn created_stream() {
    let (mut local, _remote) = attached_pair();
    let handle = local
        .handle_recv_open(1000, 9, PROMISE_ORDERED, 1_000_000)
        .expect("fresh remote stream id must be registered");
    assert_eq!(handle.promises, PROMISE_ORDERED);
    assert_eq!(handle.sid, 1000);
}

#[test]
fn messages_pass_through_in_order() {
    let (mut local, mut remote) = attached_pair();
    let (handle, ws) = local.handle_open_stream(3, PROMISE_ORDERED, 0).unwrap();
    deliver(&mut remote, ws.event);
    let n: u64 = 100;
    for k in 0..n {
        local
            .stream_send(handle.sid, k.to_le_bytes().to_vec())
            .expect("queue has room");
    }
    let sends = local.drain_send_queue();
    assert_eq!(sends.len(), 100);
    for (k, ws) in sends.into_iter().enumerate() {
        assert_eq!(ws.cid, 0);
        match &ws.event {
            ProtocolEvent::Message { sid, mid, buffer } => {
                assert_eq!(*sid, handle.sid);
                assert_eq!(*mid, 0);
                assert_eq!(buffer.as_slice(), (k as u64).to_le_bytes().as_slice());
            },
            _ => panic!("wrong event"),
        }
        deliver(&mut remote, ws.event);
    }
    for k in 0..n {
        match remote.stream_recv(handle.sid) {
            StreamRecv::Data(buffer) => {
                assert_eq!(buffer.as_slice(), k.to_le_bytes().as_slice());
            },
            _ => panic!("message missing"),
        }
    }
    assert!(matches!(remote.stream_recv(handle.sid), StreamRecv::Empty));
}

#[test]
fn channel_failure_is_tolerated_with_second_channel() {
    let mut local = Participant::new(1, 1000);
    for cid in [0, 1] {
        local.attach_channel(cid);
        local.handle_add_send_protocol(cid);
        local.handle_add_recv_protocol(cid);
    }
    // Channel 0 fails abruptly: neither manager exits.
    assert!(!local.handle_send_failure(0));
    assert!(!local.handle_recv_channel_down(0));
    assert_eq!(local.barrier_value(), 7);
    // Opens keep flowing, now over channel 1.
    assert_eq!(local.active_cid(), Some(1));
    let (_, ws) = local.handle_open_stream(1, 0, 0).unwrap();
    assert_eq!(ws.cid, 1);
}

#[test]
fn send_queue_backpressure() {
    let (mut local, _remote) = attached_pair();
    let (handle, _) = local.handle_open_stream(1, 0, 0).unwrap();
    for _ in 0..SEND_QUEUE_CAP {
        local.stream_send(handle.sid, vec![1]).expect("below the bound");
    }
    // The queue is at its bound: the caller must block, not grow memory.
    assert_eq!(local.stream_send(handle.sid, vec![1]), Err(StreamSendError::QueueFull));
}

#[test]
fn send_on_closed_stream_fails_fast() {
    let (mut local, _remote) = attached_pair();
    let (handle, _) = local.handle_open_stream(1, 0, 0).unwrap();
    assert!(!local.stream_send_closed(handle.sid));
    let close = local.handle_close_stream(handle.sid);
    assert!(matches!(
        close,
        Some(ws) if matches!(ws.event, ProtocolEvent::CloseStream { sid } if sid == handle.sid)
    ));
    assert!(local.stream_send_closed(handle.sid));
    assert_eq!(local.stream_send(handle.sid, vec![1]), Err(StreamSendError::StreamClosed));
    // A second close announces nothing: one CloseStream per stream.
    assert!(local.handle_close_stream(handle.sid).is_none());
}

#[test]
fn duplicate_remote_open_is_dropped() {
    let (mut local, _remote) = attached_pair();
    assert!(local.handle_recv_open(5, 1, 0, 0).is_some());
    assert!(local.handle_recv_open(5, 1, 0, 0).is_none());
    // Even after a close the id stays taken: a sid is registered once.
    local.handle_recv_close(5);
    assert!(local.handle_recv_open(5, 1, 0, 0).is_none());
}

#[test]
fn open_fails_once_shutdown_began() {
    let (mut local, _remote) = attached_pair();
    local.handle_attach_input_closed();
    local.shutdown_begin();
    assert!(local.handle_open_stream(1, 0, 0).is_err());
}

#[test]
fn shutdown_closes_all_streams_for_send() {
    let (mut local, mut remote) = attached_pair();
    let (handle, ws) = local.handle_open_stream(1, 0, 0).unwrap();
    deliver(&mut remote, ws.event);
    local.stream_send(handle.sid, vec![9]).unwrap();
    local.handle_attach_input_closed();
    local.shutdown_begin();
    // The queued message was overtaken by shutdown: nothing is emitted.
    assert!(local.drain_send_queue().is_empty());
    assert!(local.stream_send_closed(handle.sid));
}

#[test]
fn orphan_message_is_dropped() {
    let (mut local, _remote) = attached_pair();
    assert!(!local.handle_recv_message(42, vec![1, 2, 3]));
}

#[test]
fn remote_close_ends_the_mailbox_after_drain() {
    let (mut local, _remote) = attached_pair();
    let handle = local.handle_recv_open(17, 1, 0, 0).unwrap();
    assert!(local.handle_recv_message(handle.sid, vec![1]));
    local.handle_recv_close(handle.sid);
    // Delivered messages stay readable; then end-of-stream.
    assert!(matches!(local.stream_recv(handle.sid), StreamRecv::Data(b) if b == vec![1]));
    assert!(matches!(local.stream_recv(handle.sid), StreamRecv::Closed));
}

#[test]
fn close_trails_queued_messages_in_one_iteration() {
    let (mut local, _remote) = attached_pair();
    let out = local.send_step(SendEvent::Open { prio: 2, promises: 0, guaranteed_bandwidth: 0 });
    let handle = out.reply.unwrap().unwrap();
    assert_eq!(out.sends.len(), 1);
    local.stream_send(handle.sid, vec![7]).unwrap();
    // One iteration serves the close: the queued message goes first.
    let out = local.send_step(SendEvent::Close { sid: handle.sid });
    assert_eq!(out.sends.len(), 2);
    assert!(matches!(out.sends[0].event, ProtocolEvent::Message { .. }));
    assert!(matches!(out.sends[1].event, ProtocolEvent::CloseStream { .. }));
    assert!(out.flush.is_some());
}

#[test]
fn closing_the_last_channel_exits_the_send_manager() {
    let (mut local, _remote) = attached_pair();
    let out = local.send_step(SendEvent::CloseProtocol { cid: 0 });
    assert!(out.exited);
    assert!(matches!(out.pre_flush, Some(cmd) if cmd.byte_budget == u64::MAX));
    assert_eq!(out.sends.len(), 1);
    assert!(matches!(out.sends[0].event, ProtocolEvent::Shutdown));
    assert!(out.flush.is_none());
    assert_eq!(local.barrier_value(), 5);
}
