use socket::outgoing_report;
use socket::received_payload;
use socket::BindError;
use socket::ConfigError;
use socket::Packet;
use socket::Socket;

#[test]
fn new_socket_carries_endpoint() {
    let s = Socket::new("127.0.0.1".to_string(), 8080);
    assert_eq!(s.address, "127.0.0.1");
    assert_eq!(s.port, 8080);
    assert!(!s.running());
    assert_eq!(s.queue_len(), 0);
}

#[test]
fn listen_requires_incoming_sink() {
    let mut s = Socket::new("127.0.0.1".to_string(), 19132);
    let r = s.listen::<u8, u8>(None, Some(2));
    assert_eq!(r, Err(ConfigError::IncomingSinkRequired));
    assert!(!s.running());
}

#[test]
fn listen_requires_outgoing_sink() {
    let mut s = Socket::new("127.0.0.1".to_string(), 19132);
    let r = s.listen::<u8, u8>(Some(1), None);
    assert_eq!(r, Err(ConfigError::OutgoingSinkRequired));
    assert!(!s.running());
}

#[test]
fn listen_with_both_sinks_sets_running() {
    let mut s = Socket::new("127.0.0.1".to_string(), 19132);
    let r = s.listen::<u8, u8>(Some(1), Some(2));
    assert_eq!(r, Ok((1, 2)));
    assert!(s.running());
}

#[test]
fn incoming_packet_keeps_payload_and_peer_ipv4() {
    let p = Packet::from_datagram(vec![1, 2, 3], "192.168.0.9".to_string(), 4242, true);
    assert_eq!(p.buffer, vec![1, 2, 3]);
    assert_eq!(p.address, "192.168.0.9");
    assert_eq!(p.port, 4242);
    assert_eq!(p.version, 4);
}

#[test]
fn incoming_packet_marks_ipv6_peer() {
    let p = Packet::from_datagram(vec![], "::1".to_string(), 53, false);
    assert_eq!(p.buffer, Vec::<u8>::new());
    assert_eq!(p.address, "::1");
    assert_eq!(p.port, 53);
    assert_eq!(p.version, 6);
}

#[test]
fn send_then_drain_hands_back_the_same_packet() {
    let mut s = Socket::new("0.0.0.0".to_string(), 19132);
    s.send(vec![9, 8], "10.0.0.5".to_string(), 7777, 4);
    assert_eq!(s.queue_len(), 1);
    let p = s.dequeue_outbound().unwrap();
    assert_eq!(p.buffer, vec![9, 8]);
    assert_eq!(p.address, "10.0.0.5");
    assert_eq!(p.port, 7777);
    assert_eq!(p.version, 4);
    assert_eq!(s.queue_len(), 0);
    assert!(s.dequeue_outbound().is_none());
}

#[test]
fn queue_drains_in_fifo_order() {
    let mut s = Socket::new("0.0.0.0".to_string(), 19132);
    s.send(vec![1], "10.0.0.1".to_string(), 1111, 4);
    s.send(vec![2], "10.0.0.2".to_string(), 2222, 6);
    let first = s.dequeue_outbound().unwrap();
    assert_eq!(first.buffer, vec![1]);
    assert_eq!(first.address, "10.0.0.1");
    let second = s.dequeue_outbound().unwrap();
    assert_eq!(second.buffer, vec![2]);
    assert_eq!(second.address, "10.0.0.2");
    assert!(s.dequeue_outbound().is_none());
}

#[test]
fn close_clears_the_flag_and_keeps_the_queue() {
    let mut s = Socket::new("0.0.0.0".to_string(), 19132);
    let r = s.listen::<u8, u8>(Some(1), Some(2));
    assert!(r.is_ok());
    s.send(vec![5], "10.0.0.1".to_string(), 1234, 4);
    s.close();
    assert!(!s.running());
    assert_eq!(s.queue_len(), 1);
}

#[test]
fn send_before_listen_only_accumulates() {
    let mut s = Socket::new("0.0.0.0".to_string(), 19132);
    s.send(vec![42], "10.0.0.1".to_string(), 1234, 4);
    assert!(!s.running());
    assert_eq!(s.queue_len(), 1);
    let p = s.dequeue_outbound().unwrap();
    assert_eq!(p.buffer, vec![42]);
}

#[test]
fn failed_transmission_skips_outgoing_delivery() {
    let p = Packet::from_datagram(vec![7], "10.0.0.1".to_string(), 1234, true);
    assert!(outgoing_report(p, false).is_none());
}

#[test]
fn successful_transmission_reports_the_packet() {
    let p = Packet::from_datagram(vec![7], "10.0.0.1".to_string(), 1234, true);
    let r = outgoing_report(p, true).unwrap();
    assert_eq!(r.buffer, vec![7]);
    assert_eq!(r.address, "10.0.0.1");
    assert_eq!(r.port, 1234);
    assert_eq!(r.version, 4);
}

#[test]
fn received_payload_keeps_the_exact_length() {
    let buf = [1u8, 2, 3, 0, 0, 0];
    assert_eq!(received_payload(&buf, 3), vec![1, 2, 3]);
    assert_eq!(received_payload(&buf, 0), Vec::<u8>::new());
    assert_eq!(received_payload(&buf, 6), vec![1, 2, 3, 0, 0, 0]);
}

#[test]
fn config_error_messages() {
    assert_eq!(ConfigError::IncomingSinkRequired.message(), "incoming sink required");
    assert_eq!(ConfigError::OutgoingSinkRequired.message(), "outgoing sink required");
}

#[test]
fn bind_error_carries_the_reason() {
    let e = BindError::new("address in use".to_string());
    assert_eq!(e.reason, "address in use");
}
