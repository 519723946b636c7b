//! The connection state machine: CONNECT construction, reconnect
//! idempotence, packet-id allocation and correlation, disconnect intent, and
//! inbound routing.

use std::collections::VecDeque;

use mqtt_client::client::Client;
use mqtt_client::client::CloseAction;
use mqtt_client::client::DispatchAction;
use mqtt_client::client::route;
use mqtt_client::types::error::Error;
use mqtt_client::types::ControlPacket;
use mqtt_client::types::DecodeStatus;
use mqtt_client::types::ServerConnection;
use mqtt_client::types::Will;
use mqtt_client::types::QOS;

fn plain_client() -> (Client, Vec<u8>) {
    Client::new("c1".to_string(), None, true, "localhost", 1883, None, None).unwrap()
}

#[test]
fn connect_flags_byte_for_clean_session_alone() {
    // [type, len, 0x00, 0x04, M, Q, T, T, level, flags, keep-alive...]
    let (_, bytes) = plain_client();
    assert_eq!(bytes[0], 0x10);
    assert_eq!(&bytes[2..8], &[0x00, 0x04, b'M', b'Q', b'T', b'T']);
    assert_eq!(bytes[8], 4, "protocol level");
    assert_eq!(bytes[9], 0x02, "clean session alone sets bit 1");
    assert_eq!(&bytes[10..12], &[0, 0], "keep-alive is always zero");
    assert_eq!(&bytes[12..16], &[0, 2, b'c', b'1'], "client id");
    assert_eq!(bytes.len() as u8 - 2, bytes[1], "remaining length");
}

#[test]
fn connect_flags_byte_with_username_sets_bit_seven() {
    let (_, bytes) = Client::new(
        "c1".to_string(),
        None,
        true,
        "localhost",
        1883,
        Some("user".to_string()),
        None,
    )
    .unwrap();
    assert_eq!(bytes[9], 0x82);
}

#[test]
fn connect_flags_byte_with_credentials_and_will() {
    let will = Will {
        topic: "w/t".to_string(),
        message: "gone".to_string(),
        qos: QOS::One,
        retain: true,
    };
    let (_, bytes) = Client::new(
        "c1".to_string(),
        Some(will),
        false,
        "localhost",
        1883,
        Some("u".to_string()),
        Some("p".to_string()),
    )
    .unwrap();
    // username + password + will-retain + will-QoS 1 + will flag
    assert_eq!(bytes[9], 0x80 | 0x40 | 0x20 | 0x08 | 0x04);
    // payload order: client id, will topic, will message, username, password
    assert_eq!(
        &bytes[12..],
        &[
            0, 2, b'c', b'1', 0, 3, b'w', b'/', b't', 0, 4, b'g', b'o', b'n', b'e', 0, 1, b'u',
            0, 1, b'p'
        ]
    );
}

#[test]
fn password_without_username_does_not_set_password_bit() {
    let (_, bytes) = Client::new(
        "c1".to_string(),
        None,
        true,
        "localhost",
        1883,
        None,
        Some("p".to_string()),
    )
    .unwrap();
    assert_eq!(bytes[9], 0x02);
}

#[test]
fn reconnect_rebuilds_an_identical_connect_packet() {
    let will = Will {
        topic: "w".to_string(),
        message: "m".to_string(),
        qos: QOS::Two,
        retain: false,
    };
    let (client, first) = Client::new(
        "c9".to_string(),
        Some(will),
        true,
        "broker",
        1883,
        Some("user".to_string()),
        Some("pass".to_string()),
    )
    .unwrap();
    // A zero-byte read without prior disconnect demands a reconnect, and the
    // packet sent over the new transport is byte-identical.
    assert_eq!(client.on_stream_closed(), CloseAction::Reconnect);
    let again = client.reconnect().unwrap();
    assert_eq!(first, again);
}

#[test]
fn publish_returns_the_id_the_ack_will_carry() {
    let (mut client, _) = plain_client();
    let (pid, bytes) = client.publish("a/b", "hello", QOS::One, false).unwrap();
    // The id sits in the variable header, after the topic field.
    assert_eq!(bytes[0], 0x30 | 0x02);
    assert_eq!(&bytes[2..7], &[0, 3, b'a', b'/', b'b']);
    assert_eq!(
        &bytes[7..9],
        &[(pid >> 8) as u8, pid as u8],
        "the returned id appears verbatim in the packet"
    );
    assert_eq!(&bytes[9..], b"hello");

    // The broker acknowledges that id; the decoded PUBACK routes it to the
    // publish callback verbatim.
    let mut queue: VecDeque<u8> = VecDeque::new();
    for b in [0x40, 2, (pid >> 8) as u8, pid as u8] {
        queue.push_back(b);
    }
    let DecodeStatus::Packet(ack) = ControlPacket::from_bytes(&mut queue).unwrap() else {
        panic!("expected a decoded packet");
    };
    assert_eq!(route(ack), DispatchAction::Publish(pid as i32));
}

#[test]
fn packet_ids_count_up_and_wrap() {
    let (mut client, _) = plain_client();
    let (first, _) = client.publish("t", "m", QOS::Zero, false).unwrap();
    let (second, _) = client.publish("t", "m", QOS::Zero, false).unwrap();
    assert_eq!(first, 0);
    assert_eq!(second, 1);
    client.next_packet_id = 65535;
    let (third, _) = client.publish("t", "m", QOS::Zero, false).unwrap();
    let (fourth, _) = client.publish("t", "m", QOS::Zero, false).unwrap();
    assert_eq!(third, 65535);
    assert_eq!(fourth, 0);
}

#[test]
fn subscribe_validates_before_any_wire_activity() {
    let (mut client, _) = plain_client();
    let err = client.subscribe("a/#/b", QOS::One).unwrap_err();
    assert_eq!(err, Error::InvalidTopicMatcherError("a/#/b"));
    assert_eq!(
        client.next_packet_id, 0,
        "a rejected filter allocates no packet id"
    );
}

#[test]
fn subscribe_sends_one_filter_and_returns_its_matcher() {
    let (mut client, _) = plain_client();
    let (matcher, bytes) = client.subscribe("a/+/b", QOS::One).unwrap();
    assert!(matcher.matches("a/x/b"));
    assert!(!matcher.matches("a/x/c"));
    assert_eq!(
        bytes,
        [0x82, 10, 0, 0, 0, 5, b'a', b'/', b'+', b'/', b'b', 1]
    );
    assert_eq!(client.next_packet_id, 1);
}

#[test]
fn unsubscribe_sends_one_filter_under_a_fresh_id() {
    let (mut client, _) = plain_client();
    let (pid, bytes) = client.unsubscribe("a/b").unwrap();
    assert_eq!(pid, 0);
    assert_eq!(bytes, [0xA2, 7, 0, 0, 0, 3, b'a', b'/', b'b']);
}

#[test]
fn disconnect_sets_the_intent_before_the_send_and_rolls_back_on_failure() {
    let (mut client, _) = plain_client();
    assert_eq!(client.on_stream_closed(), CloseAction::Reconnect);
    let bytes = client.disconnect();
    assert_eq!(bytes, [0xE0, 0]);
    // With the intent set, a zero-byte read is a clean shutdown.
    assert_eq!(client.on_stream_closed(), CloseAction::Disconnect);
    // The send failed: the intent is rolled back, so the eventual stream
    // close is treated as unexpected again.
    client.disconnect_failed();
    assert_eq!(client.on_stream_closed(), CloseAction::Reconnect);
}

#[test]
fn oversized_publish_is_a_request_error() {
    let (mut client, _) = plain_client();
    let long = "x".repeat(300);
    assert_eq!(
        client.publish("t", &long, QOS::Zero, false).unwrap_err(),
        Error::RequestError
    );
    assert_eq!(client.next_packet_id, 0, "a failed publish allocates no id");
}

#[test]
fn unframeable_reconnect_is_a_connection_error() {
    let client = Client {
        client_id: "x".repeat(300),
        server_connection: ServerConnection {
            host: "h".to_string(),
            port: 1883,
            username: None,
            password: None,
        },
        clean_session: true,
        will: None,
        intent_disconnect: false,
        next_packet_id: 0,
    };
    assert_eq!(client.reconnect().unwrap_err(), Error::ConnectionError);
}

#[test]
fn oversized_connect_is_a_request_error() {
    let err = Client::new(
        "x".repeat(300),
        None,
        true,
        "localhost",
        1883,
        None,
        None,
    )
    .unwrap_err();
    assert_eq!(err, Error::RequestError);
}

#[test]
fn host_and_port_are_retained() {
    let (client, _) = plain_client();
    assert_eq!(client.host(), "localhost");
    assert_eq!(client.port(), 1883);
}

#[test]
fn routing_dispatches_each_response_to_one_callback() {
    let frames: [(Vec<u8>, DispatchAction); 6] = [
        (vec![0x20, 2, 0, 3], DispatchAction::Connect(3)),
        (vec![0x40, 2, 1, 0], DispatchAction::Publish(256)),
        (vec![0x50, 2, 0, 7], DispatchAction::Publish(7)),
        (vec![0x70, 2, 0, 8], DispatchAction::Publish(8)),
        (vec![0x90, 2, 0, 9], DispatchAction::Subscribe(9)),
        (vec![0xB0, 2, 0, 11], DispatchAction::Unsubscribe(11)),
    ];
    for (frame, expected) in frames {
        let mut queue: VecDeque<u8> = VecDeque::new();
        for b in frame {
            queue.push_back(b);
        }
        let DecodeStatus::Packet(p) = ControlPacket::from_bytes(&mut queue).unwrap() else {
            panic!("expected a decoded packet");
        };
        assert_eq!(route(p), expected);
    }
}

#[test]
fn pubrel_routes_to_the_publish_callback() {
    let mut queue: VecDeque<u8> = VecDeque::new();
    for b in [0x62, 2, 0, 12] {
        queue.push_back(b);
    }
    let DecodeStatus::Packet(p) = ControlPacket::from_bytes(&mut queue).unwrap() else {
        panic!("expected a decoded packet");
    };
    assert_eq!(route(p), DispatchAction::Publish(12));
}

#[test]
fn pingresp_routes_to_nothing() {
    let mut queue: VecDeque<u8> = VecDeque::new();
    for b in [0xD0, 0] {
        queue.push_back(b);
    }
    let DecodeStatus::Packet(p) = ControlPacket::from_bytes(&mut queue).unwrap() else {
        panic!("expected a decoded packet");
    };
    assert_eq!(route(p), DispatchAction::Nothing);
}
