//! Fixed and variable packet headers and their exact byte-level encodings.

use vstd::prelude::*;

use super::EncodedString;
use super::Integer;
use super::QOS;

verus! {

/// An MQTT header: a fixed header and an optional variable header.
#[derive(Debug, Default, Clone, PartialEq, Eq, PartialOrd, Ord)]
pub struct Header {
    pub fixed: FixedHeader,
    pub variable: Option<VariableHeader>,
}

impl Header {
    /// The header's wire form: the fixed header's two bytes (type byte and a
    /// zero placeholder for the remaining length, patched once the whole
    /// packet is assembled) followed by the variable header's bytes.
    pub open spec fn wire(self) -> Seq<u8> {
        self.fixed.wire() + match self.variable {
            Some(v) => v.wire(),
            None => Seq::empty(),
        }
    }

    /// Creates a new Header instance with the given fixed header type and
    /// optional variable header.
    pub fn new(fixed_header_type: FixedHeader, variable_header: Option<VariableHeader>) -> (r: Self)
        ensures
            r == (Header { fixed: fixed_header_type, variable: variable_header }),
    {
        Self { fixed: fixed_header_type, variable: variable_header }
    }

    /// Converts the header to a byte vector.
    pub fn to_bytes(&self) -> (r: Vec<u8>)
        ensures
            r@ == self.wire(),
    {
        let mut res = self.fixed.to_bytes();
        match &self.variable {
            Some(v) => {
                let mut vb = v.to_bytes();
                res.append(&mut vb);
            },
            None => {},
        }
        proof {
            assert(res@ =~= self.wire());
        }
        res
    }
}

/// The fixed header of an MQTT packet: the packet type, plus the
/// duplicate-delivery flag, QoS and retain flag for PUBLISH.
#[derive(Debug, Default, Clone, Copy, PartialEq, Eq, PartialOrd, Ord)]
pub enum FixedHeader {
    #[default]
    Connect,
    Connack,
    Publish(bool, QOS, bool),
    Puback,
    Pubrec,
    Pubrel,
    Pubcomp,
    Subscribe,
    Suback,
    Unsubscribe,
    Unsuback,
    Pingreq,
    Pingresp,
    Disconnect,
}

impl FixedHeader {
    /// The first wire byte: the packet-type code in the high nibble and the
    /// type-specific flags in the low nibble.
    pub open spec fn first_byte(self) -> u8 {
        match self {
            FixedHeader::Connect => 16,
            FixedHeader::Connack => 32,
            FixedHeader::Publish(dup, qos, retain) => (48 + (if dup {
                8u8
            } else {
                0u8
            }) + qos.as_byte() * 2 + (if retain {
                1u8
            } else {
                0u8
            })) as u8,
            FixedHeader::Puback => 64,
            FixedHeader::Pubrec => 80,
            FixedHeader::Pubrel => 98,
            FixedHeader::Pubcomp => 112,
            FixedHeader::Subscribe => 130,
            FixedHeader::Suback => 144,
            FixedHeader::Unsubscribe => 162,
            FixedHeader::Unsuback => 176,
            FixedHeader::Pingreq => 192,
            FixedHeader::Pingresp => 208,
            FixedHeader::Disconnect => 224,
        }
    }

    /// The fixed header's wire form: the type byte and a zero placeholder for
    /// the remaining-length byte.
    pub open spec fn wire(self) -> Seq<u8> {
        seq![self.first_byte(), 0u8]
    }

    /// Converts the fixed header to a byte vector.
    pub fn to_bytes(&self) -> (r: Vec<u8>)
        ensures
            r@ == self.wire(),
    {
        let mut res: Vec<u8> = Vec::new();
        let byte1: u8 = match self {
            FixedHeader::Connect => 16,
            FixedHeader::Connack => 32,
            FixedHeader::Publish(dup_flag, qos, retain_flag) => {
                let mut b: u8 = 48;
                if *dup_flag {
                    b += 8;
                }
                if *retain_flag {
                    b += 1;
                }
                match qos {
                    QOS::One => {
                        b += 2;
                    },
                    QOS::Two => {
                        b += 4;
                    },
                    QOS::Zero => {},
                }
                b
            },
            FixedHeader::Puback => 64,
            FixedHeader::Pubrec => 80,
            FixedHeader::Pubrel => 98,
            FixedHeader::Pubcomp => 112,
            FixedHeader::Subscribe => 130,
            FixedHeader::Suback => 144,
            FixedHeader::Unsubscribe => 162,
            FixedHeader::Unsuback => 176,
            FixedHeader::Pingreq => 192,
            FixedHeader::Pingresp => 208,
            FixedHeader::Disconnect => 224,
        };
        res.push(byte1);
        res.push(0);
        proof {
            assert(res@ =~= self.wire());
        }
        res
    }
}

/// The variable header of an MQTT packet, one shape per packet type.
#[derive(Debug, Default, Clone, PartialEq, Eq, PartialOrd, Ord)]
pub enum VariableHeader {
    Connect(Connect),
    Conack(ConnectAcknowledge),
    Publish(Publish),
    Puback(PublishAcknowledge),
    Pubrec(PublishRecieved),
    Pubrel(PublishRelease),
    Pubcomp(PublishComplete),
    Subscribe(Subscribe),
    Suback(Subscribe),
    Unsubscribe(Unsubscribe),
    Unsuback(Unsubscribe),
    #[default]
    Default,
}

impl VariableHeader {
    /// The variable header's wire form. Acknowledgment headers are carried on
    /// inbound packets only; encoding them supports exact round trips.
    pub open spec fn wire(self) -> Seq<u8> {
        match self {
            VariableHeader::Connect(h) => h.protocol_name.wire() + seq![
                h.protocol_level,
                h.connect_flags,
            ] + h.keep_alive.wire(),
            VariableHeader::Conack(h) => seq![h.connect_acknowledge_flags, h.connect_return_code],
            VariableHeader::Publish(h) => h.topic_name.wire() + h.packet_id.wire(),
            VariableHeader::Puback(h) => h.packet_id.wire(),
            VariableHeader::Pubrec(h) => h.packet_id.wire(),
            VariableHeader::Pubrel(h) => h.packet_id.wire(),
            VariableHeader::Pubcomp(h) => h.packet_id.wire(),
            VariableHeader::Subscribe(h) => h.packet_id.wire(),
            VariableHeader::Suback(h) => h.packet_id.wire(),
            VariableHeader::Unsubscribe(h) => h.packet_id.wire(),
            VariableHeader::Unsuback(h) => h.packet_id.wire(),
            VariableHeader::Default => Seq::empty(),
        }
    }

    /// Converts the variable header to a byte vector.
    pub fn to_bytes(&self) -> (r: Vec<u8>)
        ensures
            r@ == self.wire(),
    {
        let mut res: Vec<u8> = Vec::new();
        match self {
            VariableHeader::Connect(h) => {
                let mut name = h.protocol_name.to_bytes();
                res.append(&mut name);
                res.push(h.protocol_level);
                res.push(h.connect_flags);
                let mut ka = h.keep_alive.to_bytes();
                res.append(&mut ka);
            },
            VariableHeader::Conack(h) => {
                res.push(h.connect_acknowledge_flags);
                res.push(h.connect_return_code);
            },
            VariableHeader::Publish(h) => {
                let mut topic = h.topic_name.to_bytes();
                res.append(&mut topic);
                let mut pid = h.packet_id.to_bytes();
                res.append(&mut pid);
            },
            VariableHeader::Puback(h) => {
                let mut pid = h.packet_id.to_bytes();
                res.append(&mut pid);
            },
            VariableHeader::Pubrec(h) => {
                let mut pid = h.packet_id.to_bytes();
                res.append(&mut pid);
            },
            VariableHeader::Pubrel(h) => {
                let mut pid = h.packet_id.to_bytes();
                res.append(&mut pid);
            },
            VariableHeader::Pubcomp(h) => {
                let mut pid = h.packet_id.to_bytes();
                res.append(&mut pid);
            },
            VariableHeader::Subscribe(h) => {
                let mut pid = h.packet_id.to_bytes();
                res.append(&mut pid);
            },
            VariableHeader::Suback(h) => {
                let mut pid = h.packet_id.to_bytes();
                res.append(&mut pid);
            },
            VariableHeader::Unsubscribe(h) => {
                let mut pid = h.packet_id.to_bytes();
                res.append(&mut pid);
            },
            VariableHeader::Unsuback(h) => {
                let mut pid = h.packet_id.to_bytes();
                res.append(&mut pid);
            },
            VariableHeader::Default => {},
        }
        proof {
            assert(res@ =~= self.wire());
        }
        res
    }
}

/// The CONNECT packet's variable header.
#[derive(Debug, Default, Clone, PartialEq, Eq, PartialOrd, Ord)]
pub struct Connect {
    pub protocol_name: EncodedString,
    pub protocol_level: u8,
    pub connect_flags: u8,
    pub keep_alive: Integer,
}

/// The CONNACK packet's variable header.
#[derive(Debug, Default, Clone, Copy, PartialEq, Eq, PartialOrd, Ord)]
pub struct ConnectAcknowledge {
    pub connect_acknowledge_flags: u8,
    pub connect_return_code: u8,
}

/// The PUBLISH packet's variable header.
#[derive(Debug, Default, Clone, PartialEq, Eq, PartialOrd, Ord)]
pub struct Publish {
    pub topic_name: EncodedString,
    pub packet_id: Integer,
}

/// The PUBACK packet's variable header.
#[derive(Debug, Default, Clone, Copy, PartialEq, Eq, PartialOrd, Ord)]
pub struct PublishAcknowledge {
    pub packet_id: Integer,
}

/// The PUBREC packet's variable header.
#[derive(Debug, Default, Clone, Copy, PartialEq, Eq, PartialOrd, Ord)]
pub struct PublishRecieved {
    pub packet_id: Integer,
}

/// The PUBREL packet's variable header.
#[derive(Debug, Default, Clone, Copy, PartialEq, Eq, PartialOrd, Ord)]
pub struct PublishRelease {
    pub packet_id: Integer,
}

/// The PUBCOMP packet's variable header.
#[derive(Debug, Default, Clone, Copy, PartialEq, Eq, PartialOrd, Ord)]
pub struct PublishComplete {
    pub packet_id: Integer,
}

/// The SUBSCRIBE (and SUBACK) packet's variable header.
#[derive(Debug, Default, Clone, Copy, PartialEq, Eq, PartialOrd, Ord)]
pub struct Subscribe {
    pub packet_id: Integer,
}

/// The UNSUBSCRIBE (and UNSUBACK) packet's variable header.
#[derive(Debug, Default, Clone, Copy, PartialEq, Eq, PartialOrd, Ord)]
pub struct Unsubscribe {
    pub packet_id: Integer,
}

} // verus!
