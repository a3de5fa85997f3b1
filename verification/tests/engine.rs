use mqtt_session::client::ClientHandle;
use mqtt_session::client::Configuration;
use mqtt_session::connect::BrokerAddress;
use mqtt_session::connect::ConnectSequence;
use mqtt_session::connect::HandshakeEvent;
use mqtt_session::connect::evaluate_handshake;
use mqtt_session::error::ClientError;
use mqtt_session::error::ConnectError;
use mqtt_session::error::MqttError;
use mqtt_session::error::NetworkReceiveError;
use mqtt_session::error::NetworkSendError;
use mqtt_session::packet::Packet;
use mqtt_session::packet::remaining_length_width;
use mqtt_session::queue::ReplyQueue;
use mqtt_session::queue::RequestQueue;
use mqtt_session::reader::NetworkReader;
use mqtt_session::request::ClientId;
use mqtt_session::request::QoS;
use mqtt_session::request::Reply;
use mqtt_session::request::UserRequest;
use mqtt_session::supervisor::ConnectionState;
use mqtt_session::supervisor::Supervisor;
use mqtt_session::supervisor::SupervisorAction;
use mqtt_session::supervisor::SupervisorEvent;
use mqtt_session::table::OutstandingTable;
use mqtt_session::writer::NetworkWriter;
use mqtt_session::writer::publish_over_limit;

fn io_err() -> std::io::Error {
    std::io::Error::new(std::io::ErrorKind::ConnectionRefused, "dial refused")
}

fn config(max_packet_size: usize) -> Configuration {
    Configuration::new("dev-1", Vec::new(), 10_000, max_packet_size, 5_000).unwrap()
}

fn address(host: &str) -> BrokerAddress {
    BrokerAddress { host: host.to_string(), port: 1883 }
}

#[test]
fn empty_client_id_is_refused_at_construction() {
    let r = ClientId::new("");
    assert!(matches!(r, Err(ClientError::EmptyClientId)));
    let c = Configuration::new("", Vec::new(), 10_000, 1_000, 5_000);
    assert!(matches!(c, Err(ClientError::EmptyClientId)));
}

#[test]
fn nonempty_client_id_is_accepted() {
    let id = ClientId::new("dev-1").unwrap();
    assert_eq!(id.len(), 5);
}

#[test]
fn subscribe_with_zero_topics_never_reaches_the_queue() {
    let mut handle = ClientHandle::new(config(10_000), 8);
    let r = handle.subscribe(Vec::new());
    assert!(matches!(r, Err(ClientError::ZeroSubscriptions)));
    assert_eq!(handle.requests.len(), 0);
}

#[test]
fn subscribe_with_topics_is_queued() {
    let mut handle = ClientHandle::new(config(10_000), 8);
    let r = handle.subscribe(vec!["a/b".to_string()]);
    assert!(r.is_ok());
    assert_eq!(handle.requests.len(), 1);
    match handle.requests.pop() {
        Some(UserRequest::Subscribe(topics)) => assert_eq!(topics, vec!["a/b".to_string()]),
        other => panic!("expected the queued subscribe, got {:?}", other),
    }
}

#[test]
fn oversized_publish_is_refused_before_the_queue() {
    let mut handle = ClientHandle::new(config(10_000), 8);
    let payload = vec![0u8; 20_000];
    let r = handle.publish("devices/telemetry", QoS::AtLeastOnce, payload);
    assert!(matches!(r, Err(ClientError::PacketSizeLimitExceeded)));
    assert_eq!(handle.requests.len(), 0);
}

#[test]
fn fitting_publish_is_queued() {
    let mut handle = ClientHandle::new(config(10_000), 8);
    let r = handle.publish("devices/telemetry", QoS::AtLeastOnce, vec![1, 2, 3]);
    assert!(r.is_ok());
    match handle.requests.pop() {
        Some(UserRequest::Publish(publish)) => {
            assert_eq!(publish.topic, b"devices/telemetry".to_vec());
            assert_eq!(publish.payload, vec![1, 2, 3]);
            assert_eq!(publish.qos, QoS::AtLeastOnce);
        },
        other => panic!("expected the queued publish, got {:?}", other),
    }
}

#[test]
fn publish_to_a_closed_queue_hands_the_request_back() {
    let mut handle = ClientHandle::new(config(10_000), 8);
    handle.requests.close();
    let r = handle.publish("a", QoS::AtMostOnce, vec![7]);
    match r {
        Err(ClientError::MpscSend(UserRequest::Publish(publish))) => {
            assert_eq!(publish.payload, vec![7]);
        },
        other => panic!("expected the request wrapped in MpscSend, got {:?}", other),
    }
}

#[test]
fn full_queue_hands_the_request_back() {
    let mut handle = ClientHandle::new(config(10_000), 1);
    assert!(handle.ping().is_ok());
    let r = handle.ping();
    assert!(matches!(r, Err(ClientError::MpscSend(UserRequest::Ping))));
    assert_eq!(handle.requests.len(), 1);
}

#[test]
fn requests_leave_the_queue_in_submission_order() {
    let mut handle = ClientHandle::new(config(10_000), 8);
    assert!(handle.ping().is_ok());
    assert!(handle.unsubscribe(vec!["a".to_string()]).is_ok());
    assert!(handle.disconnect().is_ok());
    assert!(matches!(handle.requests.pop(), Some(UserRequest::Ping)));
    assert!(matches!(handle.requests.pop(), Some(UserRequest::Unsubscribe(_))));
    assert!(matches!(handle.requests.pop(), Some(UserRequest::Disconnect)));
    assert!(handle.requests.pop().is_none());
}

#[test]
fn empty_address_list_fails_before_any_dial() {
    let r = ConnectSequence::new(Vec::new());
    assert!(matches!(r, Err(ConnectError::DnsListEmpty)));
}

#[test]
fn second_address_succeeds_after_first_dial_is_refused() {
    let mut sequence = ConnectSequence::new(vec![address("a.example"), address("b.example")])
        .unwrap();
    assert_eq!(sequence.current_address().host, "a.example");
    assert!(sequence.dial_failed(io_err()).is_none());
    assert_eq!(sequence.current_address().host, "b.example");
    let outcome = evaluate_handshake(HandshakeEvent::Frame(Packet::ConnAck { code: 0 }));
    assert_eq!(outcome.unwrap(), 0);
    let mut supervisor = Supervisor::new();
    assert_eq!(supervisor.step(SupervisorEvent::ConnectRequested), SupervisorAction::StartHandshake);
    assert_eq!(supervisor.step(SupervisorEvent::HandshakeSucceeded), SupervisorAction::StartPipeline);
    assert_eq!(supervisor.state(), ConnectionState::Connected);
}

#[test]
fn exhausting_every_address_surfaces_the_last_transport_error() {
    let mut sequence = ConnectSequence::new(vec![address("only.example")]).unwrap();
    let r = sequence.dial_failed(io_err());
    assert!(matches!(r, Some(ConnectError::Io(_))));
}

#[test]
fn handshake_timeout_leaves_the_state_disconnected() {
    let outcome = evaluate_handshake(HandshakeEvent::TimedOut);
    assert!(matches!(outcome, Err(ConnectError::Timeout)));
    let mut supervisor = Supervisor::new();
    supervisor.step(SupervisorEvent::ConnectRequested);
    supervisor.step(SupervisorEvent::HandshakeFailed);
    assert_eq!(supervisor.state(), ConnectionState::Disconnected);
}

#[test]
fn handshake_classifies_every_failure_shape() {
    assert!(matches!(
        evaluate_handshake(HandshakeEvent::StreamClosed),
        Err(ConnectError::NoResponse)
    ));
    assert!(matches!(
        evaluate_handshake(HandshakeEvent::Frame(Packet::ConnAck { code: 5 })),
        Err(ConnectError::MqttConnectionRefused(5))
    ));
    match evaluate_handshake(HandshakeEvent::Frame(Packet::PingResp)) {
        Err(ConnectError::NotConnackPacket(packet)) => assert_eq!(packet, Packet::PingResp),
        other => panic!("expected NotConnackPacket, got {:?}", other),
    }
}

#[test]
fn missed_pong_is_fatal_and_reconnects_exactly_once() {
    let mut writer = NetworkWriter::new(10_000, 10_000, 0);
    assert_eq!(writer.poll_keepalive(9_999).unwrap(), false);
    assert_eq!(writer.poll_keepalive(10_000).unwrap(), true);
    assert_eq!(writer.poll_keepalive(24_999).unwrap(), false);
    let r = writer.poll_keepalive(25_000);
    assert!(matches!(r, Err(NetworkSendError::AwaitPingResp)));
    let mut supervisor = Supervisor::new();
    supervisor.step(SupervisorEvent::ConnectRequested);
    supervisor.step(SupervisorEvent::HandshakeSucceeded);
    assert_eq!(
        supervisor.step(SupervisorEvent::FatalNetworkError),
        SupervisorAction::StopAndReconnect
    );
    assert_eq!(supervisor.state(), ConnectionState::Reconnecting);
    assert_eq!(supervisor.step(SupervisorEvent::FatalNetworkError), SupervisorAction::Idle);
    assert_eq!(supervisor.state(), ConnectionState::Reconnecting);
}

#[test]
fn pong_in_time_keeps_the_connection_alive() {
    let mut writer = NetworkWriter::new(10_000, 10_000, 0);
    assert_eq!(writer.poll_keepalive(10_000).unwrap(), true);
    writer.record_pong(12_000);
    assert_eq!(writer.poll_keepalive(25_000).unwrap(), true);
}

#[test]
fn reconnecting_supervisor_retries_the_handshake() {
    let mut supervisor = Supervisor::new();
    supervisor.step(SupervisorEvent::ConnectRequested);
    supervisor.step(SupervisorEvent::HandshakeSucceeded);
    supervisor.step(SupervisorEvent::FatalNetworkError);
    assert_eq!(
        supervisor.step(SupervisorEvent::HandshakeFailed),
        SupervisorAction::StartHandshake
    );
    assert_eq!(supervisor.state(), ConnectionState::Reconnecting);
    assert_eq!(
        supervisor.step(SupervisorEvent::HandshakeSucceeded),
        SupervisorAction::StartPipeline
    );
    assert_eq!(supervisor.state(), ConnectionState::Connected);
}

#[test]
fn disconnect_stops_the_pipeline_from_connected() {
    let mut supervisor = Supervisor::new();
    supervisor.step(SupervisorEvent::ConnectRequested);
    supervisor.step(SupervisorEvent::HandshakeSucceeded);
    assert_eq!(
        supervisor.step(SupervisorEvent::DisconnectRequested),
        SupervisorAction::StopPipeline
    );
    assert_eq!(supervisor.state(), ConnectionState::Disconnected);
}

#[test]
fn writer_rejects_requests_while_not_connected() {
    let mut writer = NetworkWriter::new(10_000, 10_000, 0);
    let r = writer.send(ConnectionState::Disconnected, &UserRequest::Ping, 1);
    assert!(matches!(r, Err(NetworkSendError::InvalidState)));
    assert_eq!(writer.frames_sent, 0);
}

#[test]
fn writer_rejects_an_oversized_publish_without_writing() {
    let mut writer = NetworkWriter::new(10_000, 10_000, 0);
    let mut handle = ClientHandle::new(config(1_000_000), 8);
    handle.publish("devices/telemetry", QoS::AtLeastOnce, vec![0u8; 20_000]).unwrap();
    let request = handle.requests.pop().unwrap();
    let r = writer.send(ConnectionState::Connected, &request, 1);
    assert!(matches!(r, Err(NetworkSendError::PacketSizeLimitExceeded)));
    assert_eq!(writer.frames_sent, 0);
    let small = UserRequest::Ping;
    assert!(writer.send(ConnectionState::Connected, &small, 2).is_ok());
    assert_eq!(writer.frames_sent, 1);
}

#[test]
fn writer_transport_failure_closes_the_send_half() {
    let mut writer = NetworkWriter::new(10_000, 10_000, 0);
    let e = writer.transport_failed(io_err());
    assert!(matches!(e, NetworkSendError::Io(_)));
    let r = writer.send(ConnectionState::Connected, &UserRequest::Ping, 1);
    assert!(matches!(r, Err(NetworkSendError::InvalidState)));
}

#[test]
fn writer_reports_a_ping_that_could_not_be_sent_in_time() {
    let mut writer = NetworkWriter::new(10_000, 10_000, 0);
    let e = writer.ping_send_timed_out();
    assert!(matches!(e, NetworkSendError::Timeout));
    assert!(!writer.active);
}

#[test]
fn unsolicited_acknowledgment_stops_the_reader() {
    let mut table = OutstandingTable::new();
    assert!(table.insert(1, UserRequest::Ping));
    let mut reader = NetworkReader::new();
    let mut replies = ReplyQueue::new();
    let r = reader.process_packet(&Packet::PubAck { pkid: 2 }, &table, &mut replies);
    assert!(matches!(r, Err(NetworkReceiveError::Unsolicited)));
    assert!(!reader.is_running());
    assert_eq!(replies.len(), 0);
}

#[test]
fn matched_acknowledgment_becomes_a_reply() {
    let mut table = OutstandingTable::new();
    let mut handle = ClientHandle::new(config(10_000), 8);
    handle.publish("a", QoS::AtLeastOnce, vec![1]).unwrap();
    let request = handle.requests.pop().unwrap();
    assert!(table.insert(7, request));
    let mut reader = NetworkReader::new();
    let mut replies = ReplyQueue::new();
    let r = reader.process_packet(&Packet::PubAck { pkid: 7 }, &table, &mut replies);
    assert!(r.is_ok());
    assert!(reader.is_running());
    assert!(matches!(replies.pop(), Some(Reply::PubAck)));
    assert!(matches!(table.acknowledge(7), Some(UserRequest::Publish(_))));
    assert!(!table.contains(7));
}

#[test]
fn reply_channel_collapse_stops_the_reader() {
    let table = OutstandingTable::new();
    let mut reader = NetworkReader::new();
    let mut replies = ReplyQueue::new();
    replies.close();
    let r = reader.process_packet(&Packet::PingResp, &table, &mut replies);
    assert!(matches!(r, Err(NetworkReceiveError::MpscSend(Reply::PingResp))));
    assert!(!reader.is_running());
}

#[test]
fn reader_transport_failure_is_io_and_stops() {
    let mut reader = NetworkReader::new();
    let e = reader.transport_failed(io_err());
    assert!(matches!(e, NetworkReceiveError::Io(_)));
    assert!(!reader.is_running());
}

#[test]
fn frames_without_a_reply_are_passed_over() {
    let table = OutstandingTable::new();
    let mut reader = NetworkReader::new();
    let mut replies = ReplyQueue::new();
    let r = reader.process_packet(&Packet::Publish { pkid: 3 }, &table, &mut replies);
    assert!(r.is_ok());
    assert_eq!(replies.len(), 0);
    assert!(reader.is_running());
}

#[test]
fn connack_and_suback_map_to_their_replies() {
    let mut table = OutstandingTable::new();
    assert!(table.insert(4, UserRequest::Subscribe(vec!["t".to_string()])));
    let mut reader = NetworkReader::new();
    let mut replies = ReplyQueue::new();
    assert!(reader.process_packet(&Packet::ConnAck { code: 0 }, &table, &mut replies).is_ok());
    assert!(reader.process_packet(&Packet::SubAck { pkid: 4 }, &table, &mut replies).is_ok());
    assert!(matches!(replies.pop(), Some(Reply::ConnAck(0))));
    assert!(matches!(replies.pop(), Some(Reply::SubAck)));
}

#[test]
fn duplicate_packet_identifiers_are_refused() {
    let mut table = OutstandingTable::new();
    assert!(table.insert(9, UserRequest::Ping));
    assert!(!table.insert(9, UserRequest::Disconnect));
    assert_eq!(table.len(), 1);
    assert!(table.acknowledge(8).is_none());
}

#[test]
fn teardown_splits_requests_by_retry_safety() {
    let mut table = OutstandingTable::new();
    assert!(table.insert(1, UserRequest::Publish(publish_request(b"a", vec![1]))));
    assert!(table.insert(2, UserRequest::Subscribe(vec!["s".to_string()])));
    assert!(table.insert(3, UserRequest::Unsubscribe(vec!["u".to_string()])));
    assert!(table.insert(4, UserRequest::Ping));
    assert!(table.insert(5, UserRequest::Publish(publish_request(b"b", vec![2]))));
    let (requeue, fail_back) = table.drain();
    assert_eq!(table.len(), 0);
    assert_eq!(requeue.len(), 3);
    assert!(matches!(requeue[0], UserRequest::Subscribe(_)));
    assert!(matches!(requeue[1], UserRequest::Unsubscribe(_)));
    assert!(matches!(requeue[2], UserRequest::Ping));
    assert_eq!(fail_back.len(), 2);
    match (&fail_back[0], &fail_back[1]) {
        (UserRequest::Publish(first), UserRequest::Publish(second)) => {
            assert_eq!(first.topic, b"a".to_vec());
            assert_eq!(second.topic, b"b".to_vec());
        },
        other => panic!("expected the two publishes failed back in order, got {:?}", other),
    }
}

fn publish_request(topic: &[u8], payload: Vec<u8>) -> mqtt_session::request::PublishRequest {
    mqtt_session::request::PublishRequest {
        topic: topic.to_vec(),
        qos: QoS::AtLeastOnce,
        payload,
    }
}

#[test]
fn encoded_size_counts_header_length_field_and_body() {
    // topic "ab", one-byte payload gap: remaining length 2 + 2 + 2 + 3 = 9,
    // one length byte, one fixed-header byte: 11 bytes in all.
    let publish = publish_request(b"ab", vec![1, 2, 3]);
    assert!(publish_over_limit(&publish, 10));
    assert!(!publish_over_limit(&publish, 11));
}

#[test]
fn at_most_once_publish_carries_no_packet_identifier() {
    // remaining length 2 + 2 + 3 = 7, total 1 + 1 + 7 = 9.
    let publish = mqtt_session::request::PublishRequest {
        topic: b"ab".to_vec(),
        qos: QoS::AtMostOnce,
        payload: vec![1, 2, 3],
    };
    assert!(publish_over_limit(&publish, 8));
    assert!(!publish_over_limit(&publish, 9));
}

#[test]
fn remaining_length_field_width_follows_the_thresholds() {
    assert_eq!(remaining_length_width(0), 1);
    assert_eq!(remaining_length_width(127), 1);
    assert_eq!(remaining_length_width(128), 2);
    assert_eq!(remaining_length_width(16_383), 2);
    assert_eq!(remaining_length_width(16_384), 3);
    assert_eq!(remaining_length_width(2_097_151), 3);
    assert_eq!(remaining_length_width(2_097_152), 4);
}

#[test]
fn io_failures_wrap_into_each_layer() {
    assert!(matches!(ConnectError::from(io_err()), ConnectError::Io(_)));
    assert!(matches!(NetworkReceiveError::from(io_err()), NetworkReceiveError::Io(_)));
    assert!(matches!(NetworkSendError::from(io_err()), NetworkSendError::Io(_)));
}

#[test]
fn layer_failures_collapse_into_the_top_level_kinds() {
    assert_eq!(MqttError::from(ConnectError::Timeout), MqttError::ConnectError);
    assert_eq!(
        MqttError::from(NetworkReceiveError::Unsolicited),
        MqttError::NetworkReceiveError
    );
    assert_eq!(MqttError::from(NetworkSendError::AwaitPingResp), MqttError::NetworkSendError);
}

#[test]
fn bounded_queue_reports_full_and_closed() {
    let mut queue = RequestQueue::new(1);
    assert!(queue.has_room());
    assert!(queue.push(UserRequest::Ping).is_ok());
    assert!(matches!(
        queue.push(UserRequest::Disconnect),
        Err(mqtt_session::queue::RequestPushError::Full(UserRequest::Disconnect))
    ));
    queue.close();
    assert!(matches!(
        queue.push(UserRequest::Connect),
        Err(mqtt_session::queue::RequestPushError::Closed(UserRequest::Connect))
    ));
    assert!(matches!(queue.pop(), Some(UserRequest::Ping)));
}
