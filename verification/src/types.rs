//! The wire codec's data model: the 16-bit big-endian integer and the
//! length-prefixed UTF-8 string every packet is built from, the control
//! packet itself with its exact encoding and its decoder, and the retained
//! session values.

pub mod error;
pub mod header;
pub mod payload;

use std::collections::VecDeque;

use vstd::prelude::*;
use vstd::string::StrSliceExecFns;
use vstd::string::StringSliceAdditionalSpecFns;
use vstd::utf8::encode_utf8;

use error::Error;
use header::ConnectAcknowledge;
use header::FixedHeader;
use header::Header;
use header::PublishAcknowledge;
use header::PublishComplete;
use header::PublishRecieved;
use header::PublishRelease;
use header::Subscribe;
use header::Unsubscribe;
use header::VariableHeader;
use payload::spec_ack_byte;
use payload::Payload;
use payload::Payloads;

verus! {

/// The largest UTF-8 byte length an encoded string's two-byte prefix can
/// announce.
pub const MAX_STRING_LENGTH: usize = 65535;

/// The largest body (variable header plus payload) a packet can carry: the
/// remaining length is framed as a single byte, which deliberately limits
/// every packet to 255 bytes after the two header bytes.
pub const MAX_REMAINING_LENGTH: usize = 255;

/// A 16-bit integer, stored as its two big-endian wire bytes.
#[derive(Debug, Default, Clone, Copy, PartialEq, Eq, PartialOrd, Ord)]
pub struct Integer {
    pub msb: u8,
    pub lsb: u8,
}

impl Integer {
    /// The numeric value the two bytes stand for.
    pub open spec fn as_u16(self) -> u16 {
        (self.msb * 256 + self.lsb) as u16
    }

    /// The two-byte big-endian wire form.
    pub open spec fn wire(self) -> Seq<u8> {
        seq![self.msb, self.lsb]
    }

    /// Creates a new Integer instance from a u16 value.
    pub fn new(val: u16) -> (r: Self)
        ensures
            r.as_u16() == val,
            r.wire() == seq![(val / 256) as u8, (val % 256) as u8],
    {
        Self { msb: (val / 256) as u8, lsb: (val % 256) as u8 }
    }

    /// Converts the Integer instance to a byte vector.
    pub fn to_bytes(&self) -> (r: Vec<u8>)
        ensures
            r@ == self.wire(),
    {
        let mut res: Vec<u8> = Vec::new();
        res.push(self.msb);
        res.push(self.lsb);
        proof {
            assert(res@ =~= self.wire());
        }
        res
    }

    /// Converts the Integer instance to a u16 value.
    pub fn to_u16(&self) -> (r: u16)
        ensures
            r == self.as_u16(),
    {
        self.msb as u16 * 256 + self.lsb as u16
    }
}

/// The wire form of a length-prefixed string: two big-endian length bytes
/// followed by the UTF-8 encoding of `s`.
pub open spec fn spec_str_field(s: Seq<char>) -> Seq<u8> {
    let b = encode_utf8(s);
    seq![(b.len() / 256) as u8, (b.len() % 256) as u8] + b
}

/// The Quality of Service (QoS) level.
#[derive(Debug, Default, Clone, Copy, PartialEq, Eq, PartialOrd, Ord)]
pub enum QOS {
    /// At most once delivery.
    #[default]
    Zero,
    /// At least once delivery.
    One,
    /// Exactly once delivery.
    Two,
}

impl QOS {
    /// The ordinal 0/1/2 carried on the wire.
    pub open spec fn as_byte(self) -> u8 {
        match self {
            QOS::Zero => 0,
            QOS::One => 1,
            QOS::Two => 2,
        }
    }
}

/// A string encoded in the length-prefixed UTF-8 format expected by MQTT.
#[derive(Debug, Default, Clone, PartialEq, Eq, PartialOrd, Ord)]
pub struct EncodedString {
    pub len: Integer,
    pub value: String,
}

impl EncodedString {
    /// The length prefix agrees with the UTF-8 byte length of the value.
    pub open spec fn wf(self) -> bool {
        self.len.as_u16() == encode_utf8(self.value@).len()
    }

    /// The wire form: the stored length prefix followed by the UTF-8 bytes.
    pub open spec fn wire(self) -> Seq<u8> {
        self.len.wire() + encode_utf8(self.value@)
    }

    /// Creates a new EncodedString instance from a &str value. Strings whose
    /// UTF-8 encoding exceeds [`MAX_STRING_LENGTH`] bytes are a caller error.
    pub fn new(s: &str) -> (r: Self)
        requires
            s.spec_bytes().len() <= MAX_STRING_LENGTH,
        ensures
            r.value@ == s@,
            r.wf(),
            r.wire() == spec_str_field(s@),
    {
        let bytes = s.as_bytes_vec();
        let len = Integer::new(bytes.len() as u16);
        Self { len, value: s.to_owned() }
    }

    /// Creates a new EncodedString instance, or reports that the string's
    /// UTF-8 encoding is longer than the two-byte length prefix allows.
    pub fn try_new(s: &str) -> (r: Option<Self>)
        ensures
            match r {
                Some(e) => {
                    &&& s.spec_bytes().len() <= MAX_STRING_LENGTH
                    &&& e.value@ == s@
                    &&& e.wf()
                    &&& e.wire() == spec_str_field(s@)
                },
                None => s.spec_bytes().len() > MAX_STRING_LENGTH,
            },
    {
        let bytes = s.as_bytes_vec();
        if bytes.len() <= MAX_STRING_LENGTH {
            Some(Self::new(s))
        } else {
            None
        }
    }

    /// Converts the EncodedString instance to a byte vector.
    pub fn to_bytes(&self) -> (r: Vec<u8>)
        ensures
            r@ == self.wire(),
    {
        let mut res = self.len.to_bytes();
        let mut value_bytes = self.value.as_str().as_bytes_vec();
        res.append(&mut value_bytes);
        proof {
            assert(res@ =~= self.wire());
        }
        res
    }
}

/// What one decode attempt on the inbound byte queue found.
#[derive(Debug, Clone, PartialEq, Eq)]
pub enum DecodeStatus {
    /// One complete, recognized packet was consumed from the queue.
    Packet(ControlPacket),
    /// A complete frame was consumed, but its type is not one a client
    /// decodes; it yields no packet.
    NoPacket,
    /// The queue does not yet hold one complete frame; nothing was consumed.
    Incomplete,
}

/// The acknowledgment entry a SUBACK payload byte decodes to: a granted QoS
/// for 0, 1 or 2, a per-entry subscription failure for anything else.
pub open spec fn spec_ack_entry(b: u8) -> Result<QOS, Error> {
    if b == 0 {
        Ok(QOS::Zero)
    } else if b == 1 {
        Ok(QOS::One)
    } else if b == 2 {
        Ok(QOS::Two)
    } else {
        Err(Error::SubscriptionAckhowledgeFailureError)
    }
}

/// A packet that carries only the given variable header and no payload.
pub open spec fn spec_bare_packet(fixed: FixedHeader, variable: VariableHeader) -> ControlPacket {
    ControlPacket {
        header: Header { fixed, variable: Some(variable) },
        payload: Payload { content: None },
    }
}

/// The variable header a two-byte acknowledgment body decodes to, for each
/// inbound packet-type byte that carries a packet identifier.
pub open spec fn spec_ack_variable_header(packet_type: u8, pid: Integer) -> VariableHeader {
    if packet_type == 64 {
        VariableHeader::Puback(PublishAcknowledge { packet_id: pid })
    } else if packet_type == 80 {
        VariableHeader::Pubrec(PublishRecieved { packet_id: pid })
    } else if packet_type == 98 {
        VariableHeader::Pubrel(PublishRelease { packet_id: pid })
    } else if packet_type == 112 {
        VariableHeader::Pubcomp(PublishComplete { packet_id: pid })
    } else {
        VariableHeader::Unsuback(Unsubscribe { packet_id: pid })
    }
}

/// The fixed header each inbound acknowledgment packet-type byte stands for.
pub open spec fn spec_ack_fixed_header(packet_type: u8) -> FixedHeader {
    if packet_type == 64 {
        FixedHeader::Puback
    } else if packet_type == 80 {
        FixedHeader::Pubrec
    } else if packet_type == 98 {
        FixedHeader::Pubrel
    } else if packet_type == 112 {
        FixedHeader::Pubcomp
    } else {
        FixedHeader::Unsuback
    }
}

/// What decoding one complete frame yields, given its packet-type byte and
/// its body. Recognized types are exactly the responses a client receives;
/// a recognized body shorter than its variable header is malformed; every
/// other type yields no packet.
pub open spec fn spec_decode_frame(
    packet_type: u8,
    body: Seq<u8>,
    r: Result<DecodeStatus, Error>,
) -> bool {
    if packet_type == 32 {
        if body.len() < 2 {
            r == Err::<DecodeStatus, Error>(Error::MalformedPacket)
        } else {
            r == Ok::<DecodeStatus, Error>(
                DecodeStatus::Packet(
                    spec_bare_packet(
                        FixedHeader::Connack,
                        VariableHeader::Conack(
                            ConnectAcknowledge {
                                connect_acknowledge_flags: body[0],
                                connect_return_code: body[1],
                            },
                        ),
                    ),
                ),
            )
        }
    } else if packet_type == 64 || packet_type == 80 || packet_type == 98 || packet_type == 112
        || packet_type == 176 {
        if body.len() < 2 {
            r == Err::<DecodeStatus, Error>(Error::MalformedPacket)
        } else {
            r == Ok::<DecodeStatus, Error>(
                DecodeStatus::Packet(
                    spec_bare_packet(
                        spec_ack_fixed_header(packet_type),
                        spec_ack_variable_header(packet_type, Integer { msb: body[0], lsb: body[1] }),
                    ),
                ),
            )
        }
    } else if packet_type == 144 {
        if body.len() < 2 {
            r == Err::<DecodeStatus, Error>(Error::MalformedPacket)
        } else {
            &&& r matches Ok(DecodeStatus::Packet(p))
            &&& p.header == Header {
                fixed: FixedHeader::Suback,
                variable: Some(
                    VariableHeader::Suback(
                        Subscribe { packet_id: Integer { msb: body[0], lsb: body[1] } },
                    ),
                ),
            }
            &&& p.payload.content matches Some(Payloads::SubAcknowledge(codes))
            &&& codes@ == body.skip(2).map_values(|b: u8| spec_ack_entry(b))
        }
    } else if packet_type == 208 {
        r == Ok::<DecodeStatus, Error>(
            DecodeStatus::Packet(
                ControlPacket {
                    header: Header { fixed: FixedHeader::Pingresp, variable: None },
                    payload: Payload { content: None },
                },
            ),
        )
    } else {
        r == Ok::<DecodeStatus, Error>(DecodeStatus::NoPacket)
    }
}

/// An MQTT control packet.
#[derive(Debug, Default, Clone, PartialEq, Eq, PartialOrd, Ord)]
pub struct ControlPacket {
    pub header: Header,
    pub payload: Payload,
}

impl ControlPacket {
    /// Everything after the two fixed-header bytes: the variable header's
    /// bytes followed by the payload's.
    pub open spec fn body_wire(self) -> Seq<u8> {
        (match self.header.variable {
            Some(v) => v.wire(),
            None => Seq::empty(),
        }) + self.payload.wire()
    }

    /// The packet's complete wire form: the type byte, the body length as the
    /// single remaining-length byte, then the body. Meaningful only when the
    /// body is at most [`MAX_REMAINING_LENGTH`] bytes.
    pub open spec fn wire(self) -> Seq<u8> {
        seq![self.header.fixed.first_byte(), self.body_wire().len() as u8] + self.body_wire()
    }

    /// Creates a ControlPacket from the buffered inbound bytes: consumes one
    /// type byte, one remaining-length byte and exactly that many body bytes,
    /// and decodes the packet types a client receives. If the queue does not
    /// yet hold the whole frame, nothing is consumed and more bytes must be
    /// awaited.
    pub fn from_bytes(bytes: &mut VecDeque<u8>) -> (r: Result<DecodeStatus, Error>)
        ensures
            ({
                let b = old(bytes)@;
                if b.len() < 2 || b.len() < 2 + b[1] {
                    &&& r == Ok::<DecodeStatus, Error>(DecodeStatus::Incomplete)
                    &&& final(bytes)@ == b
                } else {
                    &&& final(bytes)@ == b.skip(2 + b[1] as int)
                    &&& spec_decode_frame(b[0], b.subrange(2, 2 + b[1] as int), r)
                }
            }),
    {
        let ghost b = bytes@;
        if bytes.len() < 2 {
            return Ok(DecodeStatus::Incomplete);
        }
        let len = bytes[1] as usize;
        if bytes.len() < 2 + len {
            return Ok(DecodeStatus::Incomplete);
        }
        let packet_type = bytes.pop_front().unwrap();
        let _ = bytes.pop_front();
        let mut buf: Vec<u8> = Vec::new();
        let mut i: usize = 0;
        while i < len
            invariant
                i <= len,
                b.len() >= 2 + len,
                bytes@ == b.skip(2 + i),
                buf@ == b.subrange(2, 2 + i),
            decreases len - i,
        {
            buf.push(bytes.pop_front().unwrap());
            proof {
                assert(bytes@ =~= b.skip(2 + i + 1));
                assert(buf@ =~= b.subrange(2, 2 + i + 1));
            }
            i += 1;
        }
        match packet_type {
            32u8 => {
                if buf.len() < 2 {
                    return Err(Error::MalformedPacket);
                }
                let header = Header::new(
                    FixedHeader::Connack,
                    Some(
                        VariableHeader::Conack(
                            ConnectAcknowledge {
                                connect_acknowledge_flags: buf[0],
                                connect_return_code: buf[1],
                            },
                        ),
                    ),
                );
                Ok(DecodeStatus::Packet(ControlPacket { header, payload: Payload { content: None } }))
            },
            64u8 => {
                if buf.len() < 2 {
                    return Err(Error::MalformedPacket);
                }
                let header = Header::new(
                    FixedHeader::Puback,
                    Some(
                        VariableHeader::Puback(
                            PublishAcknowledge { packet_id: Integer { msb: buf[0], lsb: buf[1] } },
                        ),
                    ),
                );
                Ok(DecodeStatus::Packet(ControlPacket { header, payload: Payload { content: None } }))
            },
            80u8 => {
                if buf.len() < 2 {
                    return Err(Error::MalformedPacket);
                }
                let header = Header::new(
                    FixedHeader::Pubrec,
                    Some(
                        VariableHeader::Pubrec(
                            PublishRecieved { packet_id: Integer { msb: buf[0], lsb: buf[1] } },
                        ),
                    ),
                );
                Ok(DecodeStatus::Packet(ControlPacket { header, payload: Payload { content: None } }))
            },
            98u8 => {
                if buf.len() < 2 {
                    return Err(Error::MalformedPacket);
                }
                let header = Header::new(
                    FixedHeader::Pubrel,
                    Some(
                        VariableHeader::Pubrel(
                            PublishRelease { packet_id: Integer { msb: buf[0], lsb: buf[1] } },
                        ),
                    ),
                );
                Ok(DecodeStatus::Packet(ControlPacket { header, payload: Payload { content: None } }))
            },
            112u8 => {
                if buf.len() < 2 {
                    return Err(Error::MalformedPacket);
                }
                let header = Header::new(
                    FixedHeader::Pubcomp,
                    Some(
                        VariableHeader::Pubcomp(
                            PublishComplete { packet_id: Integer { msb: buf[0], lsb: buf[1] } },
                        ),
                    ),
                );
                Ok(DecodeStatus::Packet(ControlPacket { header, payload: Payload { content: None } }))
            },
            144u8 => {
                if buf.len() < 2 {
                    return Err(Error::MalformedPacket);
                }
                let header = Header::new(
                    FixedHeader::Suback,
                    Some(
                        VariableHeader::Suback(
                            Subscribe { packet_id: Integer { msb: buf[0], lsb: buf[1] } },
                        ),
                    ),
                );
                let mut codes: Vec<Result<QOS, Error>> = Vec::new();
                let mut j: usize = 2;
                while j < buf.len()
                    invariant
                        2 <= j <= buf.len(),
                        codes@.len() == j - 2,
                        forall|k: int| 0 <= k < j - 2 ==> codes@[k] == spec_ack_entry(buf@[k + 2]),
                    decreases buf.len() - j,
                {
                    let entry: Result<QOS, Error> = match buf[j] {
                        0u8 => Ok(QOS::Zero),
                        1u8 => Ok(QOS::One),
                        2u8 => Ok(QOS::Two),
                        _ => Err(Error::SubscriptionAckhowledgeFailureError),
                    };
                    codes.push(entry);
                    j += 1;
                }
                proof {
                    assert(codes@ =~= buf@.skip(2).map_values(|v: u8| spec_ack_entry(v)));
                }
                Ok(
                    DecodeStatus::Packet(
                        ControlPacket {
                            header,
                            payload: Payload { content: Some(Payloads::SubAcknowledge(codes)) },
                        },
                    ),
                )
            },
            176u8 => {
                if buf.len() < 2 {
                    return Err(Error::MalformedPacket);
                }
                let header = Header::new(
                    FixedHeader::Unsuback,
                    Some(
                        VariableHeader::Unsuback(
                            Unsubscribe { packet_id: Integer { msb: buf[0], lsb: buf[1] } },
                        ),
                    ),
                );
                Ok(DecodeStatus::Packet(ControlPacket { header, payload: Payload { content: None } }))
            },
            208u8 => {
                let header = Header::new(FixedHeader::Pingresp, None);
                Ok(DecodeStatus::Packet(ControlPacket { header, payload: Payload { content: None } }))
            },
            _ => Ok(DecodeStatus::NoPacket),
        }
    }

    /// Converts the ControlPacket instance to a byte vector, or reports that
    /// the body does not fit the single remaining-length byte.
    pub fn to_bytes(&self) -> (r: Option<Vec<u8>>)
        ensures
            r is Some <==> self.body_wire().len() <= MAX_REMAINING_LENGTH,
            r matches Some(v) ==> v@ == self.wire(),
    {
        let mut body: Vec<u8> = match &self.header.variable {
            Some(v) => v.to_bytes(),
            None => Vec::new(),
        };
        let mut payload_bytes = self.payload.to_bytes();
        body.append(&mut payload_bytes);
        if body.len() > MAX_REMAINING_LENGTH {
            return None;
        }
        let fixed = self.header.fixed.to_bytes();
        let mut res: Vec<u8> = Vec::new();
        res.push(fixed[0]);
        res.push(body.len() as u8);
        res.append(&mut body);
        proof {
            assert(res@ =~= self.wire());
        }
        Some(res)
    }
}

/// The shapes of response packets a client decodes from the wire: the
/// variable header agrees with the fixed header's packet type, nothing but a
/// SUBACK carries a payload, and every failed SUBACK entry carries the
/// subscription-acknowledgment failure.
pub open spec fn spec_inbound_response(p: ControlPacket) -> bool {
    match p.header.fixed {
        FixedHeader::Connack => p.header.variable matches Some(VariableHeader::Conack(_))
            && p.payload.content is None,
        FixedHeader::Puback => p.header.variable matches Some(VariableHeader::Puback(_))
            && p.payload.content is None,
        FixedHeader::Pubrec => p.header.variable matches Some(VariableHeader::Pubrec(_))
            && p.payload.content is None,
        FixedHeader::Pubrel => p.header.variable matches Some(VariableHeader::Pubrel(_))
            && p.payload.content is None,
        FixedHeader::Pubcomp => p.header.variable matches Some(VariableHeader::Pubcomp(_))
            && p.payload.content is None,
        FixedHeader::Suback => p.header.variable matches Some(VariableHeader::Suback(_)) && (
        p.payload.content matches Some(Payloads::SubAcknowledge(codes)) && forall|i: int|
            0 <= i < codes@.len() ==> (codes@[i] is Ok || codes@[i] == Err::<QOS, Error>(
                Error::SubscriptionAckhowledgeFailureError,
            ))),
        FixedHeader::Unsuback => p.header.variable matches Some(VariableHeader::Unsuback(_))
            && p.payload.content is None,
        FixedHeader::Pingresp => p.header.variable is None && p.payload.content is None,
        _ => false,
    }
}

/// Codec round trip: encoding a response packet and decoding the resulting
/// frame consumes the whole frame and recovers the identical packet, for
/// every response shape and every field value that fits the framing bound.
pub proof fn lemma_codec_round_trip(p: ControlPacket)
    requires
        spec_inbound_response(p),
        p.body_wire().len() <= MAX_REMAINING_LENGTH,
    ensures
        p.wire().len() == 2 + p.body_wire().len(),
        p.wire()[0] == p.header.fixed.first_byte(),
        p.wire()[1] == p.body_wire().len(),
        spec_decode_frame(p.wire()[0], p.wire().skip(2), Ok(DecodeStatus::Packet(p))),
{
    let body = p.body_wire();
    assert(p.wire().skip(2) =~= body);
    match p.header.fixed {
        FixedHeader::Connack => {
            let v = p.header.variable->Some_0;
            let c = v->Conack_0;
            assert(body =~= seq![c.connect_acknowledge_flags, c.connect_return_code]);
            assert(spec_bare_packet(FixedHeader::Connack, VariableHeader::Conack(
                ConnectAcknowledge {
                    connect_acknowledge_flags: body[0],
                    connect_return_code: body[1],
                },
            )) == p);
        },
        FixedHeader::Puback => {
            let pid = p.header.variable->Some_0->Puback_0.packet_id;
            assert(body =~= seq![pid.msb, pid.lsb]);
            assert(spec_bare_packet(
                spec_ack_fixed_header(64),
                spec_ack_variable_header(64, Integer { msb: body[0], lsb: body[1] }),
            ) == p);
        },
        FixedHeader::Pubrec => {
            let pid = p.header.variable->Some_0->Pubrec_0.packet_id;
            assert(body =~= seq![pid.msb, pid.lsb]);
            assert(spec_bare_packet(
                spec_ack_fixed_header(80),
                spec_ack_variable_header(80, Integer { msb: body[0], lsb: body[1] }),
            ) == p);
        },
        FixedHeader::Pubrel => {
            let pid = p.header.variable->Some_0->Pubrel_0.packet_id;
            assert(body =~= seq![pid.msb, pid.lsb]);
            assert(spec_bare_packet(
                spec_ack_fixed_header(98),
                spec_ack_variable_header(98, Integer { msb: body[0], lsb: body[1] }),
            ) == p);
        },
        FixedHeader::Pubcomp => {
            let pid = p.header.variable->Some_0->Pubcomp_0.packet_id;
            assert(body =~= seq![pid.msb, pid.lsb]);
            assert(spec_bare_packet(
                spec_ack_fixed_header(112),
                spec_ack_variable_header(112, Integer { msb: body[0], lsb: body[1] }),
            ) == p);
        },
        FixedHeader::Suback => {
            let pid = p.header.variable->Some_0->Suback_0.packet_id;
            let codes = p.payload.content->Some_0->SubAcknowledge_0;
            let code_bytes = codes@.map_values(|e: Result<QOS, Error>| spec_ack_byte(e));
            assert(body =~= seq![pid.msb, pid.lsb] + code_bytes);
            assert(body.len() >= 2);
            assert(body.skip(2) =~= code_bytes);
            assert forall|i: int| 0 <= i < codes@.len() implies spec_ack_entry(code_bytes[i])
                == codes@[i] by {
                match codes@[i] {
                    Ok(q) => {},
                    Err(_) => {},
                }
            }
            assert(codes@ =~= body.skip(2).map_values(|b: u8| spec_ack_entry(b)));
            assert(p.header == Header {
                fixed: FixedHeader::Suback,
                variable: Some(
                    VariableHeader::Suback(
                        Subscribe { packet_id: Integer { msb: body[0], lsb: body[1] } },
                    ),
                ),
            });
        },
        FixedHeader::Unsuback => {
            let pid = p.header.variable->Some_0->Unsuback_0.packet_id;
            assert(body =~= seq![pid.msb, pid.lsb]);
            assert(spec_bare_packet(
                spec_ack_fixed_header(176),
                spec_ack_variable_header(176, Integer { msb: body[0], lsb: body[1] }),
            ) == p);
        },
        FixedHeader::Pingresp => {
            assert(body =~= Seq::<u8>::empty());
            assert(ControlPacket {
                header: Header { fixed: FixedHeader::Pingresp, variable: None },
                payload: Payload { content: None },
            } == p);
        },
        _ => {},
    }
}

/// The broker endpoint and credentials a client connected with, retained
/// verbatim so a reconnect can rebuild an identical CONNECT packet.
#[derive(Debug, Default, Clone)]
pub struct ServerConnection {
    pub host: String,
    pub port: u32,
    pub username: Option<EncodedString>,
    pub password: Option<EncodedString>,
}

/// A will message, with fields for topic, message, QoS, and retain.
#[derive(Debug, Default, Clone)]
pub struct Will {
    pub topic: String,
    pub message: String,
    pub qos: QOS,
    pub retain: bool,
}

} // verus!
