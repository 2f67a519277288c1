use automap::mocks::FreePortFactoryMock;
use automap::mocks::UdpSocketFactoryMock;
use automap::mocks::UdpSocketMock;
use automap::sockets::FreePortFactory;
use automap::sockets::UdpSocketFactory;
use automap::sockets::UdpSocketWrapper;
use automap::types::Duration;
use automap::types::IoError;
use automap::types::SocketAddress;

#[test]
fn send_scenario_records_call_and_returns_scripted_result() {
    let addr = SocketAddress::loopback(9999);
    let mut sock = UdpSocketMock::new().send_to_result(Ok(4));
    let payload: Vec<u8> = vec![1, 2, 3, 4];

    let result = sock.send_to(&payload, addr);

    assert_eq!(result, Ok(4));
    let sink = sock.send_to_params();
    assert_eq!(sink.len(), 1);
    assert_eq!(sink[0].0, vec![1, 2, 3, 4]);
    assert_eq!(sink[0].1, addr);
}

#[test]
fn results_play_back_in_fifo_order_per_operation() {
    let addr = SocketAddress::loopback(1);
    let mut sock = UdpSocketMock::new()
        .send_to_result(Ok(1))
        .send_to_result(Err(IoError::TimedOut))
        .send_to_result(Ok(3))
        .set_read_timeout_result(Err(IoError::InvalidInput))
        .set_read_timeout_result(Ok(()));
    let payload: Vec<u8> = vec![0];

    // Interleave the two operations: each queue advances on its own.
    assert_eq!(sock.send_to(&payload, addr), Ok(1));
    assert_eq!(sock.set_read_timeout(None), Err(IoError::InvalidInput));
    assert_eq!(sock.send_to(&payload, addr), Err(IoError::TimedOut));
    assert_eq!(sock.set_read_timeout(None), Ok(()));
    assert_eq!(sock.send_to(&payload, addr), Ok(3));

    assert_eq!(sock.send_to_params().len(), 3);
    assert_eq!(sock.set_read_timeout_params().len(), 2);
}

#[test]
fn recv_copies_payload_and_leaves_tail_untouched() {
    let sender = SocketAddress::new(automap::types::IpAddress::V4(10, 0, 0, 1), 5351);
    let mut sock = UdpSocketMock::new().recv_from_result(Ok((2, sender)), vec![1, 2]);
    let mut buf: Vec<u8> = vec![7, 7, 7, 7, 7];

    let result = sock.recv_from(&mut buf);

    assert_eq!(result, Ok((2, sender)));
    assert_eq!(buf, vec![1, 2, 7, 7, 7]);
    assert_eq!(sock.recv_from_params().len(), 1);
}

#[test]
fn recv_scripted_count_is_independent_of_scripted_bytes() {
    // A test may deliberately script a byte count that disagrees with the
    // bytes written, to exercise truncation handling in the caller.
    let sender = SocketAddress::loopback(5350);
    let mut sock = UdpSocketMock::new().recv_from_result(Ok((9, sender)), vec![5]);
    let mut buf: Vec<u8> = vec![0, 0, 0];

    let result = sock.recv_from(&mut buf);

    assert_eq!(result, Ok((9, sender)));
    assert_eq!(buf, vec![5, 0, 0]);
}

#[test]
fn recv_with_empty_payload_writes_nothing() {
    let sender = SocketAddress::loopback(20);
    let mut sock = UdpSocketMock::new().recv_from_result(Err(IoError::TimedOut), vec![]);
    let mut buf: Vec<u8> = vec![3, 1, 4];

    let result = sock.recv_from(&mut buf);

    assert_eq!(result, Err(IoError::TimedOut));
    assert_eq!(buf, vec![3, 1, 4]);
}

#[test]
fn capture_is_by_value_not_aliased_with_the_caller_buffer() {
    let addr = SocketAddress::loopback(9999);
    let mut sock = UdpSocketMock::new().send_to_result(Ok(2)).send_to_result(Ok(2));
    let mut payload: Vec<u8> = vec![10, 20];

    sock.send_to(&payload, addr).unwrap();
    payload[0] = 99;
    sock.send_to(&payload, addr).unwrap();

    let sink = sock.send_to_params();
    assert_eq!(sink.len(), 2);
    assert_eq!(sink[0].0, vec![10, 20]);
    assert_eq!(sink[1].0, vec![99, 20]);
}

#[test]
fn set_read_timeout_records_each_argument_in_order() {
    let mut sock = UdpSocketMock::new()
        .set_read_timeout_result(Ok(()))
        .set_read_timeout_result(Ok(()))
        .set_read_timeout_result(Ok(()));

    sock.set_read_timeout(Some(Duration::from_millis(1500))).unwrap();
    sock.set_read_timeout(None).unwrap();
    sock.set_read_timeout(Some(Duration::new(3, 0))).unwrap();

    let sink = sock.set_read_timeout_params();
    assert_eq!(sink.len(), 3);
    assert_eq!(sink[0], Some(Duration { secs: 1, nanos: 500_000_000 }));
    assert_eq!(sink[1], None);
    assert_eq!(sink[2], Some(Duration { secs: 3, nanos: 0 }));
}

#[test]
fn partial_send_is_reported_as_a_count_not_an_error() {
    let addr = SocketAddress::loopback(9999);
    let mut sock = UdpSocketMock::new().send_to_result(Ok(3));
    let payload: Vec<u8> = vec![1, 2, 3, 4, 5];

    let result = sock.send_to(&payload, addr);

    assert_eq!(result, Ok(3));
}

#[test]
fn every_error_kind_can_be_scripted_and_surfaces_unchanged() {
    let addr = SocketAddress::loopback(1);
    let kinds = vec![
        IoError::AddressInUse,
        IoError::AddressNotAvailable,
        IoError::PermissionDenied,
        IoError::TimedOut,
        IoError::ConnectionRefused,
        IoError::InvalidInput,
        IoError::Other(113),
    ];
    let mut sock = UdpSocketMock::new();
    for kind in &kinds {
        sock = sock.send_to_result(Err(*kind));
    }
    let payload: Vec<u8> = vec![];
    for kind in &kinds {
        assert_eq!(sock.send_to(&payload, addr), Err(*kind));
    }
}

#[test]
fn socket_factory_mock_hands_out_scripted_socket_then_failure() {
    let bind_addr = SocketAddress::loopback(5350);
    let other_addr = SocketAddress::loopback(5351);
    let scripted_socket = UdpSocketMock::new().send_to_result(Ok(1));
    let mut factory = UdpSocketFactoryMock::new()
        .make_result(Ok(scripted_socket))
        .make_result(Err(IoError::AddressInUse));

    let mut sock = factory.make(bind_addr).unwrap();
    let payload: Vec<u8> = vec![8];
    assert_eq!(sock.send_to(&payload, other_addr), Ok(1));

    assert!(matches!(factory.make(other_addr), Err(IoError::AddressInUse)));
    assert_eq!(factory.make_params(), &vec![bind_addr, other_addr]);
}

#[test]
fn free_port_factory_mock_plays_ports_in_fifo_order() {
    let mut factory = FreePortFactoryMock::new()
        .make_result(50000)
        .make_result(50001)
        .make_result(50000);

    assert_eq!(factory.make(), 50000);
    assert_eq!(factory.make(), 50001);
    assert_eq!(factory.make(), 50000);
}
