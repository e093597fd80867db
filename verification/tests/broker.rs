use network_driver::codes::ErrorCode;
use network_driver::driver::CommandResult;
use network_driver::driver::Network;
use network_driver::driver::NetworkState;
use network_driver::driver::Notification;
use network_driver::driver::Phase;
use network_driver::driver::TransmitOutcome;

fn broker_with_capacity(capacity: usize) -> Network {
    Network::new(vec![0u8; capacity])
}

fn submit(net: &mut Network, pid: u32) -> (Vec<u8>, usize) {
    match net.command(1, pid) {
        CommandResult::Transmit(buf, len) => (buf, len),
        other => panic!("expected an admitted request, got {:?}", other),
    }
}

#[test]
fn get_request_builds_expected_frame() {
    // Address "10.0.0.1", no payload, capacity 14: the frame is exactly
    // "GET  10.0.0.1\n" and the request is admitted.
    let mut net = broker_with_capacity(14);
    net.allow_readonly(7, 0, b"10.0.0.1".to_vec()).unwrap();
    let (buf, len) = submit(&mut net, 7);
    assert_eq!(len, 14);
    assert_eq!(&buf[..len], b"GET  10.0.0.1\n");
    assert_eq!(net.state, NetworkState::Requesting(7));
    assert_eq!(net.phase, Phase::Transmitting);
}

#[test]
fn post_request_builds_expected_frame() {
    // Address "x", payload "y", capacity 12: the frame is "POST x y\n".
    let mut net = broker_with_capacity(12);
    net.allow_readonly(3, 0, b"x".to_vec()).unwrap();
    net.allow_readonly(3, 1, b"y".to_vec()).unwrap();
    let (buf, len) = submit(&mut net, 3);
    assert_eq!(len, 9);
    assert_eq!(&buf[..len], b"POST x y\n");
}

#[test]
fn method_selection_by_payload_length() {
    // An empty registered payload still selects GET; a non-empty one POST.
    let mut net = broker_with_capacity(32);
    net.allow_readonly(1, 0, b"addr".to_vec()).unwrap();
    net.allow_readonly(1, 1, Vec::new()).unwrap();
    let (buf, len) = submit(&mut net, 1);
    assert_eq!(&buf[..5], b"GET  ");
    assert_eq!(&buf[..len], b"GET  addr\n");

    let mut net2 = broker_with_capacity(32);
    net2.allow_readonly(1, 0, b"addr".to_vec()).unwrap();
    net2.allow_readonly(1, 1, b"p".to_vec()).unwrap();
    let (buf2, len2) = submit(&mut net2, 1);
    assert_eq!(&buf2[..5], b"POST ");
    assert_eq!(&buf2[..len2], b"POST addr p\n");
}

#[test]
fn unregistered_regions_give_bare_get_frame() {
    // A process that never registered anything sends "GET  \n".
    let mut net = broker_with_capacity(6);
    let (buf, len) = submit(&mut net, 9);
    assert_eq!(&buf[..len], b"GET  \n");
}

#[test]
fn empty_address_with_payload() {
    let mut net = broker_with_capacity(16);
    net.allow_readonly(2, 1, b"y".to_vec()).unwrap();
    let (buf, len) = submit(&mut net, 2);
    assert_eq!(&buf[..len], b"POST  y\n");
}

#[test]
fn size_exceeded_then_shorter_succeeds() {
    // Address of 100 bytes against capacity 50 fails with SizeExceeded and
    // leaves the broker idle; a shorter address then succeeds.
    let mut net = broker_with_capacity(50);
    net.allow_readonly(4, 0, vec![97u8; 100]).unwrap();
    let r = net.command(1, 4);
    assert_eq!(r, CommandResult::Failure(ErrorCode::SizeExceeded));
    assert_eq!(net.state, NetworkState::Idle);
    assert_eq!(net.phase, Phase::Held);

    net.allow_readonly(4, 0, b"short".to_vec()).unwrap();
    let (buf, len) = submit(&mut net, 4);
    assert_eq!(&buf[..len], b"GET  short\n");
}

#[test]
fn size_exceeded_boundary() {
    // The GET frame needs 5 + address + 1 bytes: a 7-byte address fits a
    // 13-byte buffer exactly, an 8-byte one does not.
    let mut net = broker_with_capacity(13);
    net.allow_readonly(1, 0, b"1234567".to_vec()).unwrap();
    let (buf, len) = submit(&mut net, 1);
    assert_eq!(len, 13);
    assert_eq!(&buf[..len], b"GET  1234567\n");

    let mut net2 = broker_with_capacity(13);
    net2.allow_readonly(1, 0, b"12345678".to_vec()).unwrap();
    assert_eq!(net2.command(1, 1), CommandResult::Failure(ErrorCode::SizeExceeded));
}

#[test]
fn second_submit_is_busy_until_receive_completes() {
    // A second submit-request while one is in flight fails with Busy and
    // mutates nothing; after the receive completion the broker is idle again.
    let mut net = broker_with_capacity(20);
    net.allow_readonly(5, 0, b"a".to_vec()).unwrap();
    let (buf, _len) = submit(&mut net, 5);

    assert_eq!(net.command(1, 5), CommandResult::Failure(ErrorCode::Busy));
    assert_eq!(net.command(1, 6), CommandResult::Failure(ErrorCode::Busy));
    assert_eq!(net.state, NetworkState::Requesting(5));

    let rx = match net.transmitted_buffer(buf, Ok(())) {
        TransmitOutcome::Receive(rx, cap) => {
            assert_eq!(cap, 20);
            rx
        }
        other => panic!("expected a receive arming, got {:?}", other),
    };
    assert_eq!(net.command(1, 5), CommandResult::Failure(ErrorCode::Busy));

    let note = net.received_buffer(rx, 0, Ok(()));
    assert_eq!(note, Some(Notification { pid: 5, status: 0, length: 0 }));
    assert_eq!(net.state, NetworkState::Idle);

    let (buf3, len3) = submit(&mut net, 5);
    assert_eq!(&buf3[..len3], b"GET  a\n");
}

#[test]
fn transmit_failure_notifies_and_resets() {
    // A failed transmit finishes the request: failure status, length 0, state
    // idle, buffer back with the driver.
    let mut net = broker_with_capacity(16);
    net.allow_readonly(8, 0, b"a".to_vec()).unwrap();
    let (buf, _len) = submit(&mut net, 8);
    match net.transmitted_buffer(buf, Err(ErrorCode::TransportFailure)) {
        TransmitOutcome::Done(note) => {
            let note = note.expect("the owning process is owed a notification");
            assert_eq!(note.pid, 8);
            assert_ne!(note.status, 0);
            assert_eq!(note.length, 0);
        }
        other => panic!("expected a finished request, got {:?}", other),
    }
    assert_eq!(net.state, NetworkState::Idle);
    assert_eq!(net.phase, Phase::Held);
    // The broker is idle again.
    let (_buf, _len) = submit(&mut net, 8);
}

#[test]
fn receive_success_copies_with_terminator() {
    // Four received bytes, data_in capacity 4: data_in holds the received
    // bytes with the fourth forced to the terminator 0; the notification
    // reports success with length 4.
    let mut net = broker_with_capacity(16);
    net.allow_readonly(2, 0, b"a".to_vec()).unwrap();
    net.allow_readwrite(2, 0, vec![9u8; 4]).unwrap();
    let (buf, _len) = submit(&mut net, 2);
    let mut rx = match net.transmitted_buffer(buf, Ok(())) {
        TransmitOutcome::Receive(rx, _cap) => rx,
        other => panic!("expected a receive arming, got {:?}", other),
    };
    rx[0] = b'w';
    rx[1] = b'x';
    rx[2] = b'y';
    rx[3] = b'z';
    let note = net.received_buffer(rx, 4, Ok(()));
    assert_eq!(note, Some(Notification { pid: 2, status: 0, length: 4 }));
    assert_eq!(net.state, NetworkState::Idle);

    // Swap the region out to observe what was delivered.
    let delivered = net.allow_readwrite(2, 0, Vec::new()).unwrap();
    assert_eq!(delivered, vec![b'w', b'x', b'y', 0]);
}

#[test]
fn receive_longer_than_data_in_skips_copy() {
    // When the received length exceeds the data_in capacity the copy is
    // skipped, yet the notification still reports success with the full
    // received length.
    let mut net = broker_with_capacity(16);
    net.allow_readonly(2, 0, b"a".to_vec()).unwrap();
    net.allow_readwrite(2, 0, vec![9u8, 9u8]).unwrap();
    let (buf, _len) = submit(&mut net, 2);
    let rx = match net.transmitted_buffer(buf, Ok(())) {
        TransmitOutcome::Receive(rx, _cap) => rx,
        other => panic!("expected a receive arming, got {:?}", other),
    };
    let note = net.received_buffer(rx, 5, Ok(()));
    assert_eq!(note, Some(Notification { pid: 2, status: 0, length: 5 }));
    let untouched = net.allow_readwrite(2, 0, Vec::new()).unwrap();
    assert_eq!(untouched, vec![9u8, 9u8]);
}

#[test]
fn receive_failure_notifies_failure() {
    let mut net = broker_with_capacity(16);
    net.allow_readonly(6, 0, b"a".to_vec()).unwrap();
    net.allow_readwrite(6, 0, vec![9u8; 4]).unwrap();
    let (buf, _len) = submit(&mut net, 6);
    let rx = match net.transmitted_buffer(buf, Ok(())) {
        TransmitOutcome::Receive(rx, _cap) => rx,
        other => panic!("expected a receive arming, got {:?}", other),
    };
    let note = net.received_buffer(rx, 3, Err(ErrorCode::TransportFailure));
    let note = note.expect("the owning process is owed a notification");
    assert_ne!(note.status, 0);
    assert_eq!(note.length, 0);
    assert_eq!(net.state, NetworkState::Idle);
    // The registered region was not written.
    let untouched = net.allow_readwrite(6, 0, Vec::new()).unwrap();
    assert_eq!(untouched, vec![9u8; 4]);
}

#[test]
fn transmit_rejected_reclaims_buffer() {
    // A synchronous rejection of the transmit hand-off reclaims the buffer
    // and reopens admission; no notification is owed.
    let mut net = broker_with_capacity(16);
    net.allow_readonly(1, 0, b"a".to_vec()).unwrap();
    let (buf, _len) = submit(&mut net, 1);
    net.transmit_rejected(buf);
    assert_eq!(net.state, NetworkState::Idle);
    assert_eq!(net.phase, Phase::Held);
    let (_buf, _len) = submit(&mut net, 1);
}

#[test]
fn receive_rejected_notifies_and_resets() {
    // A synchronous rejection of the receive arming finishes the request
    // with a failure notification.
    let mut net = broker_with_capacity(16);
    net.allow_readonly(4, 0, b"a".to_vec()).unwrap();
    let (buf, _len) = submit(&mut net, 4);
    let rx = match net.transmitted_buffer(buf, Ok(())) {
        TransmitOutcome::Receive(rx, _cap) => rx,
        other => panic!("expected a receive arming, got {:?}", other),
    };
    let note = net.receive_rejected(rx, ErrorCode::OutOfResources);
    let note = note.expect("the owning process is owed a notification");
    assert_eq!(note.pid, 4);
    assert_ne!(note.status, 0);
    assert_eq!(note.length, 0);
    assert_eq!(net.state, NetworkState::Idle);
    assert_eq!(net.phase, Phase::Held);
}

#[test]
fn zero_length_receive_copies_nothing() {
    let mut net = broker_with_capacity(16);
    net.allow_readonly(3, 0, b"a".to_vec()).unwrap();
    net.allow_readwrite(3, 0, vec![7u8; 3]).unwrap();
    let (buf, _len) = submit(&mut net, 3);
    let rx = match net.transmitted_buffer(buf, Ok(())) {
        TransmitOutcome::Receive(rx, _cap) => rx,
        other => panic!("expected a receive arming, got {:?}", other),
    };
    let note = net.received_buffer(rx, 0, Ok(()));
    assert_eq!(note, Some(Notification { pid: 3, status: 0, length: 0 }));
    let untouched = net.allow_readwrite(3, 0, Vec::new()).unwrap();
    assert_eq!(untouched, vec![7u8; 3]);
}

#[test]
fn liveness_probe_always_succeeds() {
    let mut net = broker_with_capacity(8);
    assert_eq!(net.command(0, 1), CommandResult::Success);
    let (buf, _len) = submit(&mut net, 1);
    // Still succeeds while a request is in flight, and changes nothing.
    assert_eq!(net.command(0, 1), CommandResult::Success);
    assert_eq!(net.state, NetworkState::Requesting(1));
    net.transmit_rejected(buf);
}

#[test]
fn unknown_command_is_unsupported() {
    let mut net = broker_with_capacity(8);
    assert_eq!(net.command(2, 1), CommandResult::Failure(ErrorCode::Unsupported));
    assert_eq!(net.command(99, 1), CommandResult::Failure(ErrorCode::Unsupported));
    assert_eq!(net.state, NetworkState::Idle);
}
