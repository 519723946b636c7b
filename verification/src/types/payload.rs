//! Packet payloads and their exact byte-level encodings.

use vstd::prelude::*;
use vstd::utf8::encode_utf8;

use super::error::Error;
use super::spec_str_field;
use super::EncodedString;
use super::MAX_STRING_LENGTH;
use super::QOS;

verus! {

/// The wire form of an optional encoded-string payload field: absent fields
/// contribute no bytes.
pub open spec fn spec_opt_str_field(s: Option<Seq<char>>) -> Seq<u8> {
    match s {
        Some(v) => spec_str_field(v),
        None => Seq::empty(),
    }
}

/// The wire form of a CONNECT payload: client id, then will topic and will
/// message if a will is present, then username and password if present, each
/// as an encoded string.
pub open spec fn spec_connect_payload_wire(
    client_id: Seq<char>,
    will_topic: Option<Seq<char>>,
    will_message: Option<Seq<char>>,
    username: Option<Seq<char>>,
    password: Option<Seq<char>>,
) -> Seq<u8> {
    spec_str_field(client_id) + spec_opt_str_field(will_topic) + spec_opt_str_field(will_message)
        + spec_opt_str_field(username) + spec_opt_str_field(password)
}

/// The wire form of a SUBSCRIBE payload: each (filter, QoS) entry in order.
pub open spec fn spec_sub_entries_wire(entries: Seq<SubscribePayload>) -> Seq<u8>
    decreases entries.len(),
{
    if entries.len() == 0 {
        Seq::empty()
    } else {
        spec_sub_entries_wire(entries.drop_last()) + entries.last().wire()
    }
}

/// The wire form of an UNSUBSCRIBE payload: each filter in order.
pub open spec fn spec_unsub_entries_wire(entries: Seq<EncodedString>) -> Seq<u8>
    decreases entries.len(),
{
    if entries.len() == 0 {
        Seq::empty()
    } else {
        spec_unsub_entries_wire(entries.drop_last()) + entries.last().wire()
    }
}

/// The byte a SUBACK acknowledgment entry is carried as: the granted QoS, or
/// 128 for a failed subscription.
pub open spec fn spec_ack_byte(entry: Result<QOS, Error>) -> u8 {
    match entry {
        Ok(q) => q.as_byte(),
        Err(_) => 128,
    }
}

/// An MQTT payload: absent for packets that carry none.
#[derive(Debug, Default, Clone, PartialEq, Eq, PartialOrd, Ord)]
pub struct Payload {
    pub content: Option<Payloads>,
}

impl Payload {
    /// The payload's wire form: the content's bytes, or none.
    pub open spec fn wire(self) -> Seq<u8> {
        match self.content {
            Some(c) => c.wire(),
            None => Seq::empty(),
        }
    }

    /// Converts the Payload instance to a byte vector.
    pub fn to_bytes(&self) -> (r: Vec<u8>)
        ensures
            r@ == self.wire(),
    {
        match &self.content {
            Some(content) => content.to_bytes(),
            None => Vec::new(),
        }
    }
}

/// The different shapes of MQTT payload.
#[derive(Debug, Default, Clone, PartialEq, Eq, PartialOrd, Ord)]
pub enum Payloads {
    Connect(ConnectPayload),
    Publish(Vec<u8>),
    Subscribe(Vec<SubscribePayload>),
    SubAcknowledge(Vec<Result<QOS, Error>>),
    Unsubscribe(Vec<EncodedString>),
    #[default]
    Default,
}

impl Payloads {
    /// The payload's wire form. A PUBLISH payload is raw, unframed bytes; a
    /// SUBACK payload is one acknowledgment byte per entry.
    pub open spec fn wire(self) -> Seq<u8> {
        match self {
            Payloads::Connect(p) => p.wire(),
            Payloads::Publish(p) => p@,
            Payloads::Subscribe(p) => spec_sub_entries_wire(p@),
            Payloads::SubAcknowledge(p) => p@.map_values(|e: Result<QOS, Error>| spec_ack_byte(e)),
            Payloads::Unsubscribe(p) => spec_unsub_entries_wire(p@),
            Payloads::Default => Seq::empty(),
        }
    }

    /// Converts the Payloads instance to a byte vector.
    pub fn to_bytes(&self) -> (r: Vec<u8>)
        ensures
            r@ == self.wire(),
    {
        match self {
            Payloads::Connect(p) => p.to_bytes(),
            Payloads::Publish(p) => {
                let mut res: Vec<u8> = Vec::new();
                let mut copy = p.clone();
                res.append(&mut copy);
                proof {
                    assert(res@ =~= self.wire());
                }
                res
            },
            Payloads::Subscribe(p) => {
                let mut res: Vec<u8> = Vec::new();
                let mut i: usize = 0;
                while i < p.len()
                    invariant
                        i <= p.len(),
                        res@ == spec_sub_entries_wire(p@.take(i as int)),
                    decreases p.len() - i,
                {
                    let mut entry = p[i].to_bytes();
                    res.append(&mut entry);
                    proof {
                        assert(p@.take(i + 1).drop_last() =~= p@.take(i as int));
                        assert(p@.take(i + 1).last() == p@[i as int]);
                    }
                    i += 1;
                }
                proof {
                    assert(p@.take(p@.len() as int) =~= p@);
                }
                res
            },
            Payloads::SubAcknowledge(p) => {
                let mut res: Vec<u8> = Vec::new();
                let mut i: usize = 0;
                while i < p.len()
                    invariant
                        i <= p.len(),
                        res@.len() == i,
                        forall|j: int| 0 <= j < i ==> res@[j] == spec_ack_byte(p@[j]),
                    decreases p.len() - i,
                {
                    let b: u8 = match &p[i] {
                        Ok(q) => match q {
                            QOS::Zero => 0,
                            QOS::One => 1,
                            QOS::Two => 2,
                        },
                        Err(_) => 128,
                    };
                    res.push(b);
                    i += 1;
                }
                proof {
                    assert(res@ =~= self.wire());
                }
                res
            },
            Payloads::Unsubscribe(p) => {
                let mut res: Vec<u8> = Vec::new();
                let mut i: usize = 0;
                while i < p.len()
                    invariant
                        i <= p.len(),
                        res@ == spec_unsub_entries_wire(p@.take(i as int)),
                    decreases p.len() - i,
                {
                    let mut entry = p[i].to_bytes();
                    res.append(&mut entry);
                    proof {
                        assert(p@.take(i + 1).drop_last() =~= p@.take(i as int));
                        assert(p@.take(i + 1).last() == p@[i as int]);
                    }
                    i += 1;
                }
                proof {
                    assert(p@.take(p@.len() as int) =~= p@);
                }
                res
            },
            Payloads::Default => Vec::new(),
        }
    }
}

/// The payload of a CONNECT packet.
#[derive(Debug, Default, Clone, PartialEq, Eq, PartialOrd, Ord)]
pub struct ConnectPayload {
    pub client_id: EncodedString,
    pub will_topic: Option<EncodedString>,
    pub will_message: Option<EncodedString>,
    pub username: Option<EncodedString>,
    pub password: Option<EncodedString>,
}

impl ConnectPayload {
    /// Every stored string carries a correct length prefix.
    pub open spec fn wf(self) -> bool {
        &&& self.client_id.wf()
        &&& (self.will_topic matches Some(e) ==> e.wf())
        &&& (self.will_message matches Some(e) ==> e.wf())
        &&& (self.username matches Some(e) ==> e.wf())
        &&& (self.password matches Some(e) ==> e.wf())
    }

    /// The wire form of one optional field.
    pub open spec fn opt_wire(f: Option<EncodedString>) -> Seq<u8> {
        match f {
            Some(e) => e.wire(),
            None => Seq::empty(),
        }
    }

    /// The payload's wire form: client id, will topic, will message,
    /// username, password, in that order, absent fields skipped.
    pub open spec fn wire(self) -> Seq<u8> {
        self.client_id.wire() + Self::opt_wire(self.will_topic) + Self::opt_wire(self.will_message)
            + Self::opt_wire(self.username) + Self::opt_wire(self.password)
    }

    /// Creates a new ConnectPayload instance. Strings longer than
    /// [`MAX_STRING_LENGTH`] UTF-8 bytes are a caller error.
    pub fn new(
        client_id: &str,
        will_topic: Option<&str>,
        will_message: Option<&str>,
        username: Option<String>,
        password: Option<String>,
    ) -> (r: Self)
        requires
            encode_utf8(client_id@).len() <= MAX_STRING_LENGTH,
            will_topic matches Some(t) ==> encode_utf8(t@).len() <= MAX_STRING_LENGTH,
            will_message matches Some(m) ==> encode_utf8(m@).len() <= MAX_STRING_LENGTH,
            username matches Some(u) ==> encode_utf8(u@).len() <= MAX_STRING_LENGTH,
            password matches Some(p) ==> encode_utf8(p@).len() <= MAX_STRING_LENGTH,
        ensures
            r.wf(),
            r.wire() == spec_connect_payload_wire(
                client_id@,
                will_topic.deep_view(),
                will_message.deep_view(),
                username.deep_view(),
                password.deep_view(),
            ),
    {
        let will_topic = match will_topic {
            Some(t) => Some(EncodedString::new(t)),
            None => None,
        };
        let will_message = match will_message {
            Some(m) => Some(EncodedString::new(m)),
            None => None,
        };
        let username = match username {
            Some(u) => Some(EncodedString::new(u.as_str())),
            None => None,
        };
        let password = match password {
            Some(p) => Some(EncodedString::new(p.as_str())),
            None => None,
        };
        Self { client_id: EncodedString::new(client_id), will_topic, will_message, username, password }
    }

    /// Converts the ConnectPayload instance to a byte vector.
    pub fn to_bytes(&self) -> (r: Vec<u8>)
        ensures
            r@ == self.wire(),
    {
        let mut res = self.client_id.to_bytes();
        match &self.will_topic {
            Some(v) => {
                let mut b = v.to_bytes();
                res.append(&mut b);
            },
            None => {},
        }
        match &self.will_message {
            Some(v) => {
                let mut b = v.to_bytes();
                res.append(&mut b);
            },
            None => {},
        }
        match &self.username {
            Some(v) => {
                let mut b = v.to_bytes();
                res.append(&mut b);
            },
            None => {},
        }
        match &self.password {
            Some(v) => {
                let mut b = v.to_bytes();
                res.append(&mut b);
            },
            None => {},
        }
        proof {
            assert(res@ =~= self.wire());
        }
        res
    }
}

/// One (topic filter, requested QoS) entry of a SUBSCRIBE payload.
#[derive(Debug, Default, Clone, PartialEq, Eq, PartialOrd, Ord)]
pub struct SubscribePayload {
    pub topic_filter: EncodedString,
    pub qos: QOS,
}

impl SubscribePayload {
    /// The entry's wire form: the filter as an encoded string, then one QoS
    /// byte.
    pub open spec fn wire(self) -> Seq<u8> {
        self.topic_filter.wire() + seq![self.qos.as_byte()]
    }

    /// Creates a new SubscribePayload instance. Filters longer than
    /// [`MAX_STRING_LENGTH`] UTF-8 bytes are a caller error.
    pub fn new(topic_filter: &str, qos: QOS) -> (r: Self)
        requires
            encode_utf8(topic_filter@).len() <= MAX_STRING_LENGTH,
        ensures
            r.topic_filter.value@ == topic_filter@,
            r.topic_filter.wf(),
            r.qos == qos,
            r.wire() == spec_str_field(topic_filter@) + seq![qos.as_byte()],
    {
        Self { topic_filter: EncodedString::new(topic_filter), qos }
    }

    /// Converts the SubscribePayload instance to a byte vector.
    pub fn to_bytes(&self) -> (r: Vec<u8>)
        ensures
            r@ == self.wire(),
    {
        let mut res = self.topic_filter.to_bytes();
        match self.qos {
            QOS::One => {
                res.push(1);
            },
            QOS::Two => {
                res.push(2);
            },
            QOS::Zero => {
                res.push(0);
            },
        }
        proof {
            assert(res@ =~= self.wire());
        }
        res
    }
}

} // verus!
