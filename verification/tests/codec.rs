//! The wire codec: primitives, exact packet encodings, decode outcomes, and
//! the encode-then-decode round trips of every response packet type.

use std::collections::VecDeque;

use mqtt_client::types::error::Error;
use mqtt_client::types::header::ConnectAcknowledge;
use mqtt_client::types::header::FixedHeader;
use mqtt_client::types::header::Header;
use mqtt_client::types::header::PublishAcknowledge;
use mqtt_client::types::header::PublishComplete;
use mqtt_client::types::header::PublishRecieved;
use mqtt_client::types::header::PublishRelease;
use mqtt_client::types::header::Subscribe;
use mqtt_client::types::header::Unsubscribe;
use mqtt_client::types::header::VariableHeader;
use mqtt_client::types::payload::Payload;
use mqtt_client::types::payload::Payloads;
use mqtt_client::types::payload::SubscribePayload;
use mqtt_client::types::ControlPacket;
use mqtt_client::types::DecodeStatus;
use mqtt_client::types::EncodedString;
use mqtt_client::types::Integer;
use mqtt_client::types::QOS;

fn ack_packet(fixed: FixedHeader, variable: VariableHeader) -> ControlPacket {
    ControlPacket {
        header: Header::new(fixed, Some(variable)),
        payload: Payload { content: None },
    }
}

fn round_trip(packet: &ControlPacket) -> ControlPacket {
    let bytes = packet.to_bytes().unwrap();
    let mut queue: VecDeque<u8> = VecDeque::new();
    for b in bytes {
        queue.push_back(b);
    }
    let decoded = ControlPacket::from_bytes(&mut queue).unwrap();
    assert_eq!(queue.len(), 0, "the whole frame must be consumed");
    match decoded {
        DecodeStatus::Packet(p) => p,
        _ => panic!("expected a decoded packet"),
    }
}

#[test]
fn integer_round_trips_and_encodes_big_endian() {
    let i = Integer::new(0x1234);
    assert_eq!(i.to_bytes(), [0x12, 0x34]);
    assert_eq!(i.to_u16(), 0x1234);
    assert_eq!(Integer::new(0).to_bytes(), [0, 0]);
    assert_eq!(Integer::new(65535).to_u16(), 65535);
}

#[test]
fn encoded_string_is_length_prefixed() {
    let s = EncodedString::new("abc");
    assert_eq!(s.to_bytes(), [0, 3, b'a', b'b', b'c']);
    assert_eq!(EncodedString::new("").to_bytes(), [0, 0]);
}

#[test]
fn connack_round_trip() {
    let packet = ack_packet(
        FixedHeader::Connack,
        VariableHeader::Conack(ConnectAcknowledge {
            connect_acknowledge_flags: 1,
            connect_return_code: 5,
        }),
    );
    assert_eq!(packet.to_bytes().unwrap(), [0x20, 2, 1, 5]);
    assert_eq!(round_trip(&packet), packet);
}

#[test]
fn puback_round_trip() {
    let packet = ack_packet(
        FixedHeader::Puback,
        VariableHeader::Puback(PublishAcknowledge { packet_id: Integer::new(0x0102) }),
    );
    assert_eq!(packet.to_bytes().unwrap(), [0x40, 2, 1, 2]);
    assert_eq!(round_trip(&packet), packet);
}

#[test]
fn pubrec_round_trip() {
    let packet = ack_packet(
        FixedHeader::Pubrec,
        VariableHeader::Pubrec(PublishRecieved { packet_id: Integer::new(700) }),
    );
    assert_eq!(round_trip(&packet), packet);
}

#[test]
fn pubrel_round_trip() {
    let packet = ack_packet(
        FixedHeader::Pubrel,
        VariableHeader::Pubrel(PublishRelease { packet_id: Integer::new(700) }),
    );
    assert_eq!(packet.to_bytes().unwrap()[0], 98);
    assert_eq!(round_trip(&packet), packet);
}

#[test]
fn pubcomp_round_trip() {
    let packet = ack_packet(
        FixedHeader::Pubcomp,
        VariableHeader::Pubcomp(PublishComplete { packet_id: Integer::new(65535) }),
    );
    assert_eq!(round_trip(&packet), packet);
}

#[test]
fn suback_round_trip_keeps_every_entry() {
    let packet = ControlPacket {
        header: Header::new(
            FixedHeader::Suback,
            Some(VariableHeader::Suback(Subscribe { packet_id: Integer::new(9) })),
        ),
        payload: Payload {
            content: Some(Payloads::SubAcknowledge(vec![
                Ok(QOS::Zero),
                Ok(QOS::One),
                Ok(QOS::Two),
                Err(Error::SubscriptionAckhowledgeFailureError),
            ])),
        },
    };
    assert_eq!(packet.to_bytes().unwrap(), [0x90, 6, 0, 9, 0, 1, 2, 0x80]);
    assert_eq!(round_trip(&packet), packet);
}

#[test]
fn suback_entry_outside_qos_range_is_a_per_entry_failure() {
    let mut queue: VecDeque<u8> = VecDeque::new();
    for b in [0x90u8, 4, 0, 9, 1, 0x80] {
        queue.push_back(b);
    }
    let decoded = ControlPacket::from_bytes(&mut queue).unwrap();
    let DecodeStatus::Packet(p) = decoded else {
        panic!("expected a decoded packet");
    };
    let Some(Payloads::SubAcknowledge(codes)) = p.payload.content else {
        panic!("expected a SUBACK payload");
    };
    assert_eq!(
        codes,
        vec![Ok(QOS::One), Err(Error::SubscriptionAckhowledgeFailureError)]
    );
}

#[test]
fn unsuback_round_trip() {
    let packet = ack_packet(
        FixedHeader::Unsuback,
        VariableHeader::Unsuback(Unsubscribe { packet_id: Integer::new(0x0405) }),
    );
    assert_eq!(packet.to_bytes().unwrap(), [0xB0, 2, 4, 5]);
    assert_eq!(round_trip(&packet), packet);
}

#[test]
fn pingresp_round_trip() {
    let packet = ControlPacket {
        header: Header::new(FixedHeader::Pingresp, None),
        payload: Payload { content: None },
    };
    assert_eq!(packet.to_bytes().unwrap(), [0xD0, 0]);
    assert_eq!(round_trip(&packet), packet);
}

#[test]
fn incomplete_frame_is_not_consumed() {
    // A PUBACK frame announcing two body bytes, with only one buffered.
    let mut queue: VecDeque<u8> = VecDeque::new();
    for b in [0x40u8, 2, 1] {
        queue.push_back(b);
    }
    assert_eq!(
        ControlPacket::from_bytes(&mut queue).unwrap(),
        DecodeStatus::Incomplete
    );
    assert_eq!(queue.len(), 3, "an incomplete frame must stay buffered");
    // The missing byte arrives; the same queue now decodes.
    queue.push_back(7);
    let decoded = ControlPacket::from_bytes(&mut queue).unwrap();
    assert!(matches!(decoded, DecodeStatus::Packet(_)));
    assert_eq!(queue.len(), 0);
}

#[test]
fn one_byte_buffer_is_incomplete() {
    let mut queue: VecDeque<u8> = VecDeque::new();
    queue.push_back(0x40);
    assert_eq!(
        ControlPacket::from_bytes(&mut queue).unwrap(),
        DecodeStatus::Incomplete
    );
    assert_eq!(queue.len(), 1);
}

#[test]
fn unknown_packet_type_yields_no_packet() {
    // A complete frame of a type a client never decodes is skipped whole.
    let mut queue: VecDeque<u8> = VecDeque::new();
    for b in [0x10u8, 2, 0, 0, 0x40, 2, 0, 3] {
        queue.push_back(b);
    }
    assert_eq!(
        ControlPacket::from_bytes(&mut queue).unwrap(),
        DecodeStatus::NoPacket
    );
    // The PUBACK behind it is still decodable.
    let decoded = ControlPacket::from_bytes(&mut queue).unwrap();
    assert!(matches!(decoded, DecodeStatus::Packet(_)));
}

#[test]
fn short_body_of_a_recognized_type_is_malformed() {
    let mut queue: VecDeque<u8> = VecDeque::new();
    for b in [0x20u8, 1, 0] {
        queue.push_back(b);
    }
    assert_eq!(
        ControlPacket::from_bytes(&mut queue),
        Err(Error::MalformedPacket)
    );
    assert_eq!(queue.len(), 0, "a malformed frame is consumed");
}

#[test]
fn oversized_body_cannot_be_framed() {
    let packet = ControlPacket {
        header: Header::new(
            FixedHeader::Publish(false, QOS::Zero, false),
            Some(VariableHeader::Publish(mqtt_client::types::header::Publish {
                topic_name: EncodedString::new("t"),
                packet_id: Integer::new(1),
            })),
        ),
        payload: Payload { content: Some(Payloads::Publish(vec![0u8; 300])) },
    };
    assert_eq!(packet.to_bytes(), None);
}

#[test]
fn publish_fixed_header_carries_flags() {
    let header = FixedHeader::Publish(true, QOS::Two, true);
    assert_eq!(header.to_bytes(), [0x30 | 0x08 | 0x04 | 0x01, 0]);
    let header = FixedHeader::Publish(false, QOS::One, false);
    assert_eq!(header.to_bytes(), [0x30 | 0x02, 0]);
}

#[test]
fn subscribe_payload_entry_encodes_filter_and_qos() {
    let entry = SubscribePayload::new("a/b", QOS::One);
    assert_eq!(entry.to_bytes(), [0, 3, b'a', b'/', b'b', 1]);
}
