//! Connection state, request building, packet-identifier allocation, and the
//! routing decisions of the dispatch loop.
//!
//! The client here owns everything that can be decided without a socket: it
//! builds the exact bytes of every outbound packet, allocates packet
//! identifiers from a wrapping counter, tracks the intent to disconnect, and
//! turns inbound packets and stream closures into dispatch actions. The
//! embedding application owns the transport: it writes the returned bytes,
//! feeds received bytes to the decoder, and performs the returned actions.

use vstd::prelude::*;
use vstd::string::StrSliceExecFns;
use vstd::utf8::encode_utf8;
use vstd::utf8::is_ascii_chars;
use vstd::utf8::is_ascii_chars_encode_utf8;

use crate::topic_matcher::spec_valid_filter;
use crate::topic_matcher::TopicMatcher;
use crate::types::error::Error;
use crate::types::header::Connect;
use crate::types::header::FixedHeader;
use crate::types::header::Header;
use crate::types::header::Publish;
use crate::types::header::PublishAcknowledge;
use crate::types::header::Subscribe;
use crate::types::header::Unsubscribe;
use crate::types::header::VariableHeader;
use crate::types::payload::spec_connect_payload_wire;
use crate::types::payload::spec_sub_entries_wire;
use crate::types::payload::spec_unsub_entries_wire;
use crate::types::payload::ConnectPayload;
use crate::types::payload::Payload;
use crate::types::payload::Payloads;
use crate::types::payload::SubscribePayload;
use crate::types::spec_bare_packet;
use crate::types::spec_decode_frame;
use crate::types::spec_str_field;
use crate::types::ControlPacket;
use crate::types::DecodeStatus;
use crate::types::EncodedString;
use crate::types::Integer;
use crate::types::ServerConnection;
use crate::types::Will;
use crate::types::MAX_REMAINING_LENGTH;
use crate::types::MAX_STRING_LENGTH;
use crate::types::QOS;

verus! {

/// The two big-endian bytes of a 16-bit value.
pub open spec fn spec_u16_field(v: u16) -> Seq<u8> {
    seq![(v / 256) as u8, (v % 256) as u8]
}

/// The characters of an optional string.
pub open spec fn spec_opt_chars(s: Option<String>) -> Option<Seq<char>> {
    match s {
        Some(v) => Some(v@),
        None => None,
    }
}

/// The will's topic, if a will is present.
pub open spec fn spec_will_topic(will: Option<Will>) -> Option<Seq<char>> {
    match will {
        Some(w) => Some(w.topic@),
        None => None,
    }
}

/// The will's message, if a will is present.
pub open spec fn spec_will_message(will: Option<Will>) -> Option<Seq<char>> {
    match will {
        Some(w) => Some(w.message@),
        None => None,
    }
}

/// The CONNECT packet's connect-flags byte: bit 7 username present, bit 6
/// password present (only together with a username), bit 5 will retain,
/// bits 4-3 the will QoS, bit 2 will present, bit 1 clean session, bit 0
/// reserved as zero.
pub open spec fn spec_connect_flags(
    has_username: bool,
    has_password: bool,
    clean_session: bool,
    will: Option<Will>,
) -> u8 {
    ((if has_username {
        128int
    } else {
        0int
    }) + (if has_password && has_username {
        64int
    } else {
        0int
    }) + (if clean_session {
        2int
    } else {
        0int
    }) + (match will {
        Some(w) => (if w.retain {
            32int
        } else {
            0int
        }) + w.qos.as_byte() * 8 + 4,
        None => 0int,
    })) as u8
}

/// The body of a CONNECT packet: the variable header (protocol name "MQTT",
/// protocol level 4, the connect-flags byte, keep-alive 0) followed by the
/// CONNECT payload.
pub open spec fn spec_connect_body(
    client_id: Seq<char>,
    will: Option<Will>,
    clean_session: bool,
    username: Option<Seq<char>>,
    password: Option<Seq<char>>,
) -> Seq<u8> {
    spec_str_field("MQTT"@) + seq![
        4u8,
        spec_connect_flags(username is Some, password is Some, clean_session, will),
        0u8,
        0u8,
    ] + spec_connect_payload_wire(
        client_id,
        spec_will_topic(will),
        spec_will_message(will),
        username,
        password,
    )
}

/// The complete CONNECT packet for the given session identity.
pub open spec fn spec_connect_packet_bytes(
    client_id: Seq<char>,
    will: Option<Will>,
    clean_session: bool,
    username: Option<Seq<char>>,
    password: Option<Seq<char>>,
) -> Seq<u8> {
    let body = spec_connect_body(client_id, will, clean_session, username, password);
    seq![16u8, body.len() as u8] + body
}

/// The body of a PUBLISH packet: topic, packet id, then the raw payload.
pub open spec fn spec_publish_body(topic: Seq<char>, message: Seq<char>, pid: u16) -> Seq<u8> {
    spec_str_field(topic) + spec_u16_field(pid) + encode_utf8(message)
}

/// The complete PUBLISH packet, sent with the duplicate-delivery flag clear.
pub open spec fn spec_publish_packet_bytes(
    topic: Seq<char>,
    message: Seq<char>,
    qos: QOS,
    retain: bool,
    pid: u16,
) -> Seq<u8> {
    let body = spec_publish_body(topic, message, pid);
    seq![
        (48 + qos.as_byte() * 2 + (if retain {
            1u8
        } else {
            0u8
        })) as u8,
        body.len() as u8,
    ] + body
}

/// The body of a SUBSCRIBE packet with one (filter, QoS) entry.
pub open spec fn spec_subscribe_body(filter: Seq<char>, qos: QOS, pid: u16) -> Seq<u8> {
    spec_u16_field(pid) + spec_str_field(filter) + seq![qos.as_byte()]
}

/// The complete SUBSCRIBE packet with one (filter, QoS) entry.
pub open spec fn spec_subscribe_packet_bytes(filter: Seq<char>, qos: QOS, pid: u16) -> Seq<u8> {
    let body = spec_subscribe_body(filter, qos, pid);
    seq![130u8, body.len() as u8] + body
}

/// The body of an UNSUBSCRIBE packet with one filter.
pub open spec fn spec_unsubscribe_body(filter: Seq<char>, pid: u16) -> Seq<u8> {
    spec_u16_field(pid) + spec_str_field(filter)
}

/// The complete UNSUBSCRIBE packet with one filter.
pub open spec fn spec_unsubscribe_packet_bytes(filter: Seq<char>, pid: u16) -> Seq<u8> {
    let body = spec_unsubscribe_body(filter, pid);
    seq![162u8, body.len() as u8] + body
}

/// The complete DISCONNECT packet: a fixed header alone, with an empty body.
pub open spec fn spec_disconnect_packet_bytes() -> Seq<u8> {
    seq![224u8, 0u8]
}

/// The packet identifier that follows `pid`: a monotonically increasing
/// counter with wraparound.
pub open spec fn spec_next_packet_id(pid: u16) -> u16 {
    if pid == 65535 {
        0
    } else {
        (pid + 1) as u16
    }
}

/// The UTF-8 encoding of the protocol name is its four ASCII bytes.
proof fn lemma_mqtt_name_len()
    ensures
        encode_utf8("MQTT"@).len() == 4,
{
    reveal_strlit("MQTT");
    assert(is_ascii_chars("MQTT"@));
    is_ascii_chars_encode_utf8("MQTT"@);
}

/// Computes the CONNECT packet's connect-flags byte.
fn connect_flags(has_username: bool, has_password: bool, clean_session: bool, will: &Option<
    Will,
>) -> (r: u8)
    ensures
        r == spec_connect_flags(has_username, has_password, clean_session, *will),
{
    let mut flags: u8 = 0;
    if has_username {
        flags += 128;
    }
    if has_password && has_username {
        flags += 64;
    }
    if clean_session {
        flags += 2;
    }
    match will {
        Some(w) => {
            if w.retain {
                flags += 32;
            }
            match w.qos {
                QOS::One => {
                    flags += 8;
                },
                QOS::Two => {
                    flags += 16;
                },
                QOS::Zero => {},
            }
            flags += 4;
        },
        None => {},
    }
    flags
}

/// Builds the bytes of the CONNECT packet for the given session identity, or
/// reports that they do not fit the framing bound.
#[verifier::rlimit(60)]
fn build_connect_bytes(
    client_id: &str,
    will: &Option<Will>,
    clean_session: bool,
    username: &Option<String>,
    password: &Option<String>,
) -> (r: Option<Vec<u8>>)
    ensures
        r is Some <==> spec_connect_body(
            client_id@,
            *will,
            clean_session,
            spec_opt_chars(*username),
            spec_opt_chars(*password),
        ).len() <= MAX_REMAINING_LENGTH,
        r matches Some(bytes) ==> bytes@ == spec_connect_packet_bytes(
            client_id@,
            *will,
            clean_session,
            spec_opt_chars(*username),
            spec_opt_chars(*password),
        ),
{
    let ghost body = spec_connect_body(
        client_id@,
        *will,
        clean_session,
        spec_opt_chars(*username),
        spec_opt_chars(*password),
    );
    proof {
        lemma_mqtt_name_len();
    }
    // Every string field contributes its own length to the body, so an
    // over-long field already exceeds the framing bound.
    if client_id.as_bytes_vec().len() > MAX_STRING_LENGTH {
        return None;
    }
    match will {
        Some(w) => {
            if w.topic.as_str().as_bytes_vec().len() > MAX_STRING_LENGTH {
                return None;
            }
            if w.message.as_str().as_bytes_vec().len() > MAX_STRING_LENGTH {
                return None;
            }
        },
        None => {},
    }
    match username {
        Some(u) => {
            if u.as_str().as_bytes_vec().len() > MAX_STRING_LENGTH {
                return None;
            }
        },
        None => {},
    }
    match password {
        Some(p) => {
            if p.as_str().as_bytes_vec().len() > MAX_STRING_LENGTH {
                return None;
            }
        },
        None => {},
    }
    let flags = connect_flags(username.is_some(), password.is_some(), clean_session, will);
    let header = Header::new(
        FixedHeader::Connect,
        Some(
            VariableHeader::Connect(
                Connect {
                    protocol_name: EncodedString::new("MQTT"),
                    protocol_level: 4,
                    connect_flags: flags,
                    keep_alive: Integer::new(0),
                },
            ),
        ),
    );
    let will_topic: Option<&str> = match will {
        Some(w) => Some(w.topic.as_str()),
        None => None,
    };
    let will_message: Option<&str> = match will {
        Some(w) => Some(w.message.as_str()),
        None => None,
    };
    let connect_payload = ConnectPayload::new(
        client_id,
        will_topic,
        will_message,
        username.clone(),
        password.clone(),
    );
    let packet = ControlPacket {
        header,
        payload: Payload { content: Some(Payloads::Connect(connect_payload)) },
    };
    proof {
        assert(packet.body_wire() =~= body);
    }
    match packet.to_bytes() {
        Some(bytes) => {
            proof {
                assert(bytes@ =~= spec_connect_packet_bytes(
                    client_id@,
                    *will,
                    clean_session,
                    spec_opt_chars(*username),
                    spec_opt_chars(*password),
                ));
            }
            Some(bytes)
        },
        None => None,
    }
}

/// An MQTT client session: its identity, the retained broker endpoint and
/// credentials, the will, the packet-identifier counter, and the intent to
/// disconnect that tells the dispatch loop how to read a stream closure.
#[derive(Debug)]
pub struct Client {
    pub client_id: String,
    pub server_connection: ServerConnection,
    pub clean_session: bool,
    pub will: Option<Will>,
    pub intent_disconnect: bool,
    pub next_packet_id: u16,
}

/// What the dispatch loop must do with one decoded inbound packet: invoke
/// exactly one registered callback, or nothing.
#[derive(Debug, Clone, PartialEq, Eq)]
pub enum DispatchAction {
    /// Invoke the connect callback with the CONNACK return code.
    Connect(i32),
    /// Invoke the publish callback with the acknowledged packet id.
    Publish(i32),
    /// Invoke the subscribe callback with the acknowledged packet id.
    Subscribe(i32),
    /// Invoke the unsubscribe callback with the acknowledged packet id.
    Unsubscribe(i32),
    /// Invoke the message callback with the full PUBLISH packet.
    Message(ControlPacket),
    /// Invoke nothing.
    Nothing,
}

/// What the dispatch loop must do after a zero-byte read.
#[derive(Debug, Clone, Copy, PartialEq, Eq)]
pub enum CloseAction {
    /// The closure honors a local disconnect intent: invoke the disconnect
    /// callback with code 0 and stop.
    Disconnect,
    /// The peer closed unexpectedly: send a fresh CONNECT over a new
    /// transport, discard any error, and resume reading.
    Reconnect,
}

/// The dispatch action one decoded packet routes to: CONNACK to the connect
/// callback with its return code, the PUBACK/PUBREC/PUBREL/PUBCOMP family to
/// the publish callback with the packet id, SUBACK and UNSUBACK to the
/// subscribe and unsubscribe callbacks with the packet id, PUBLISH to the
/// message callback with the whole packet, and everything else to nothing.
/// A packet whose variable header does not agree with its packet type routes
/// to nothing.
pub open spec fn spec_route(p: ControlPacket) -> DispatchAction {
    match p.header.fixed {
        FixedHeader::Connack => match p.header.variable {
            Some(VariableHeader::Conack(c)) => DispatchAction::Connect(
                c.connect_return_code as i32,
            ),
            _ => DispatchAction::Nothing,
        },
        FixedHeader::Puback => match p.header.variable {
            Some(VariableHeader::Puback(v)) => DispatchAction::Publish(v.packet_id.as_u16() as i32),
            _ => DispatchAction::Nothing,
        },
        FixedHeader::Pubrec => match p.header.variable {
            Some(VariableHeader::Pubrec(v)) => DispatchAction::Publish(v.packet_id.as_u16() as i32),
            _ => DispatchAction::Nothing,
        },
        FixedHeader::Pubrel => match p.header.variable {
            Some(VariableHeader::Pubrel(v)) => DispatchAction::Publish(v.packet_id.as_u16() as i32),
            _ => DispatchAction::Nothing,
        },
        FixedHeader::Pubcomp => match p.header.variable {
            Some(VariableHeader::Pubcomp(v)) => DispatchAction::Publish(
                v.packet_id.as_u16() as i32,
            ),
            _ => DispatchAction::Nothing,
        },
        FixedHeader::Suback => match p.header.variable {
            Some(VariableHeader::Suback(v)) => DispatchAction::Subscribe(
                v.packet_id.as_u16() as i32,
            ),
            _ => DispatchAction::Nothing,
        },
        FixedHeader::Unsuback => match p.header.variable {
            Some(VariableHeader::Unsuback(v)) => DispatchAction::Unsubscribe(
                v.packet_id.as_u16() as i32,
            ),
            _ => DispatchAction::Nothing,
        },
        FixedHeader::Publish(_, _, _) => DispatchAction::Message(p),
        _ => DispatchAction::Nothing,
    }
}

/// Routes one decoded inbound packet to the dispatch action it demands.
pub fn route(packet: ControlPacket) -> (a: DispatchAction)
    ensures
        a == spec_route(packet),
{
    match packet.header.fixed {
        FixedHeader::Connack => match &packet.header.variable {
            Some(VariableHeader::Conack(c)) => DispatchAction::Connect(
                c.connect_return_code as i32,
            ),
            _ => DispatchAction::Nothing,
        },
        FixedHeader::Puback => match &packet.header.variable {
            Some(VariableHeader::Puback(v)) => DispatchAction::Publish(
                v.packet_id.to_u16() as i32,
            ),
            _ => DispatchAction::Nothing,
        },
        FixedHeader::Pubrec => match &packet.header.variable {
            Some(VariableHeader::Pubrec(v)) => DispatchAction::Publish(
                v.packet_id.to_u16() as i32,
            ),
            _ => DispatchAction::Nothing,
        },
        FixedHeader::Pubrel => match &packet.header.variable {
            Some(VariableHeader::Pubrel(v)) => DispatchAction::Publish(
                v.packet_id.to_u16() as i32,
            ),
            _ => DispatchAction::Nothing,
        },
        FixedHeader::Pubcomp => match &packet.header.variable {
            Some(VariableHeader::Pubcomp(v)) => DispatchAction::Publish(
                v.packet_id.to_u16() as i32,
            ),
            _ => DispatchAction::Nothing,
        },
        FixedHeader::Suback => match &packet.header.variable {
            Some(VariableHeader::Suback(v)) => DispatchAction::Subscribe(
                v.packet_id.to_u16() as i32,
            ),
            _ => DispatchAction::Nothing,
        },
        FixedHeader::Unsuback => match &packet.header.variable {
            Some(VariableHeader::Unsuback(v)) => DispatchAction::Unsubscribe(
                v.packet_id.to_u16() as i32,
            ),
            _ => DispatchAction::Nothing,
        },
        FixedHeader::Publish(_, _, _) => DispatchAction::Message(packet),
        _ => DispatchAction::Nothing,
    }
}

impl Client {
    /// The characters of the stored username, if any.
    pub open spec fn username_view(self) -> Option<Seq<char>> {
        match self.server_connection.username {
            Some(u) => Some(u.value@),
            None => None,
        }
    }

    /// The characters of the stored password, if any.
    pub open spec fn password_view(self) -> Option<Seq<char>> {
        match self.server_connection.password {
            Some(p) => Some(p.value@),
            None => None,
        }
    }

    /// The CONNECT packet this client's stored identity produces, at connect
    /// and at every reconnect.
    pub open spec fn spec_connect_wire(self) -> Seq<u8> {
        spec_connect_packet_bytes(
            self.client_id@,
            self.will,
            self.clean_session,
            self.username_view(),
            self.password_view(),
        )
    }

    /// Returns the host of the server connection.
    pub fn host(&self) -> (r: &str)
        ensures
            r@ == self.server_connection.host@,
    {
        self.server_connection.host.as_str()
    }

    /// Returns the port of the server connection.
    pub fn port(&self) -> (r: u32)
        ensures
            r == self.server_connection.port,
    {
        self.server_connection.port
    }

    /// Creates a new Client instance: stores the session identity and builds
    /// the CONNECT packet to transmit, with the connect flags computed from
    /// credential presence, the will, and the clean-session flag. Fails with
    /// the request error exactly when the packet cannot be framed.
    pub fn new(
        client_id: String,
        will: Option<Will>,
        clean_session: bool,
        host: &str,
        port: u32,
        username: Option<String>,
        pass: Option<String>,
    ) -> (r: Result<(Client, Vec<u8>), Error>)
        ensures
            match r {
                Ok((c, bytes)) => {
                    &&& spec_connect_body(
                        client_id@,
                        will,
                        clean_session,
                        spec_opt_chars(username),
                        spec_opt_chars(pass),
                    ).len() <= MAX_REMAINING_LENGTH
                    &&& bytes@ == spec_connect_packet_bytes(
                        client_id@,
                        will,
                        clean_session,
                        spec_opt_chars(username),
                        spec_opt_chars(pass),
                    )
                    &&& bytes@ == c.spec_connect_wire()
                    &&& c.client_id@ == client_id@
                    &&& c.will == will
                    &&& c.clean_session == clean_session
                    &&& c.server_connection.host@ == host@
                    &&& c.server_connection.port == port
                    &&& c.username_view() == spec_opt_chars(username)
                    &&& c.password_view() == spec_opt_chars(pass)
                    &&& c.intent_disconnect == false
                    &&& c.next_packet_id == 0
                },
                Err(e) => {
                    &&& e == Error::RequestError
                    &&& spec_connect_body(
                        client_id@,
                        will,
                        clean_session,
                        spec_opt_chars(username),
                        spec_opt_chars(pass),
                    ).len() > MAX_REMAINING_LENGTH
                },
            },
    {
        let bytes = match build_connect_bytes(
            client_id.as_str(),
            &will,
            clean_session,
            &username,
            &pass,
        ) {
            Some(b) => b,
            None => {
                return Err(Error::RequestError);
            },
        };
        // The whole body fits the framing bound, so each credential fits an
        // encoded string's length prefix.
        let username_es = match &username {
            Some(u) => Some(EncodedString::new(u.as_str())),
            None => None,
        };
        let password_es = match &pass {
            Some(p) => Some(EncodedString::new(p.as_str())),
            None => None,
        };
        let server_connection = ServerConnection {
            host: host.to_owned(),
            port,
            username: username_es,
            password: password_es,
        };
        Ok(
            (
                Client {
                    client_id,
                    server_connection,
                    clean_session,
                    will,
                    intent_disconnect: false,
                    next_packet_id: 0,
                },
                bytes,
            ),
        )
    }

    /// Rebuilds the CONNECT packet from the stored identity, for
    /// transmission over a freshly opened transport: byte-identical in
    /// structure to the original connect, without re-validating the will or
    /// credentials. Fails with the connection error exactly when the packet
    /// cannot be framed.
    pub fn reconnect(&self) -> (r: Result<Vec<u8>, Error>)
        ensures
            match r {
                Ok(bytes) => bytes@ == self.spec_connect_wire(),
                Err(e) => e == Error::ConnectionError,
            },
            r is Ok <==> spec_connect_body(
                self.client_id@,
                self.will,
                self.clean_session,
                self.username_view(),
                self.password_view(),
            ).len() <= MAX_REMAINING_LENGTH,
    {
        let username: Option<String> = match &self.server_connection.username {
            Some(u) => Some(u.value.clone()),
            None => None,
        };
        let password: Option<String> = match &self.server_connection.password {
            Some(p) => Some(p.value.clone()),
            None => None,
        };
        match build_connect_bytes(
            self.client_id.as_str(),
            &self.will,
            self.clean_session,
            &username,
            &password,
        ) {
            Some(bytes) => Ok(bytes),
            None => Err(Error::ConnectionError),
        }
    }

    /// Builds a PUBLISH packet for the topic and message with the given QoS
    /// and retain flag, and allocates the packet id that correlates the
    /// later acknowledgments. Returns the id and the bytes to transmit;
    /// fails with the request error, leaving the client unchanged, exactly
    /// when the packet cannot be framed.
    pub fn publish(&mut self, topic: &str, message_text: &str, qos: QOS, retain: bool) -> (r:
        Result<(u16, Vec<u8>), Error>)
        ensures
            match r {
                Ok((pid, bytes)) => {
                    &&& pid == old(self).next_packet_id
                    &&& bytes@ == spec_publish_packet_bytes(
                        topic@,
                        message_text@,
                        qos,
                        retain,
                        pid,
                    )
                    &&& spec_publish_body(topic@, message_text@, pid).len()
                        <= MAX_REMAINING_LENGTH
                    &&& *final(self) == (Client {
                        next_packet_id: spec_next_packet_id(old(self).next_packet_id),
                        ..*old(self)
                    })
                },
                Err(e) => {
                    &&& e == Error::RequestError
                    &&& spec_publish_body(topic@, message_text@, old(self).next_packet_id).len()
                        > MAX_REMAINING_LENGTH
                    &&& *final(self) == *old(self)
                },
            },
    {
        let pid = self.next_packet_id;
        let topic_es = match EncodedString::try_new(topic) {
            Some(e) => e,
            None => {
                return Err(Error::RequestError);
            },
        };
        let header = Header::new(
            FixedHeader::Publish(false, qos, retain),
            Some(VariableHeader::Publish(Publish { topic_name: topic_es, packet_id: Integer::new(pid) })),
        );
        let payload = Payload {
            content: Some(Payloads::Publish(message_text.as_bytes_vec())),
        };
        let packet = ControlPacket { header, payload };
        proof {
            assert(packet.body_wire() =~= spec_publish_body(topic@, message_text@, pid));
        }
        match packet.to_bytes() {
            Some(bytes) => {
                proof {
                    assert(bytes@ =~= spec_publish_packet_bytes(
                        topic@,
                        message_text@,
                        qos,
                        retain,
                        pid,
                    ));
                }
                self.next_packet_id = if self.next_packet_id == 65535 {
                    0
                } else {
                    self.next_packet_id + 1
                };
                Ok((pid, bytes))
            },
            None => Err(Error::RequestError),
        }
    }

    /// Validates the topic filter before any network activity, then builds a
    /// SUBSCRIBE packet with exactly one (filter, QoS) entry under a fresh
    /// packet id. Returns the compiled matcher and the bytes to transmit.
    /// Fails with the invalid-topic-matcher error, before anything else, on
    /// a malformed filter, and with the request error exactly when a valid
    /// filter's packet cannot be framed; either failure leaves the client
    /// unchanged.
    pub fn subscribe(&mut self, topic: &'static str, qos: QOS) -> (r: Result<
        (TopicMatcher, Vec<u8>),
        Error,
    >)
        ensures
            match r {
                Ok((matcher, bytes)) => {
                    &&& spec_valid_filter(topic@)
                    &&& matcher.filter() == topic@
                    &&& bytes@ == spec_subscribe_packet_bytes(
                        topic@,
                        qos,
                        old(self).next_packet_id,
                    )
                    &&& spec_subscribe_body(topic@, qos, old(self).next_packet_id).len()
                        <= MAX_REMAINING_LENGTH
                    &&& *final(self) == (Client {
                        next_packet_id: spec_next_packet_id(old(self).next_packet_id),
                        ..*old(self)
                    })
                },
                Err(e) => {
                    &&& *final(self) == *old(self)
                    &&& if !spec_valid_filter(topic@) {
                        e == Error::InvalidTopicMatcherError(topic)
                    } else {
                        &&& e == Error::RequestError
                        &&& spec_subscribe_body(topic@, qos, old(self).next_packet_id).len()
                            > MAX_REMAINING_LENGTH
                    }
                },
            },
    {
        let pid = self.next_packet_id;
        let matcher = match TopicMatcher::new(topic) {
            Ok(m) => m,
            Err(e) => {
                return Err(e);
            },
        };
        let filter_es = match EncodedString::try_new(topic) {
            Some(e) => e,
            None => {
                return Err(Error::RequestError);
            },
        };
        let header = Header::new(
            FixedHeader::Subscribe,
            Some(VariableHeader::Subscribe(Subscribe { packet_id: Integer::new(pid) })),
        );
        let entry = SubscribePayload { topic_filter: filter_es, qos };
        let ghost entry_view = entry;
        let mut entries: Vec<SubscribePayload> = Vec::new();
        entries.push(entry);
        proof {
            assert(entries@ =~= seq![entry_view]);
        }
        let payload = Payload { content: Some(Payloads::Subscribe(entries)) };
        let packet = ControlPacket { header, payload };
        proof {
            assert(seq![entry_view].drop_last() =~= Seq::<SubscribePayload>::empty());
            assert(seq![entry_view].last() == entry_view);
            assert(spec_sub_entries_wire(Seq::<SubscribePayload>::empty()) == Seq::<u8>::empty());
            assert(spec_sub_entries_wire(seq![entry_view]) =~= entry_view.wire());
            assert(packet.body_wire() =~= spec_subscribe_body(topic@, qos, pid));
        }
        match packet.to_bytes() {
            Some(bytes) => {
                proof {
                    assert(bytes@ =~= spec_subscribe_packet_bytes(topic@, qos, pid));
                }
                self.next_packet_id = if self.next_packet_id == 65535 {
                    0
                } else {
                    self.next_packet_id + 1
                };
                Ok((matcher, bytes))
            },
            None => Err(Error::RequestError),
        }
    }

    /// Builds an UNSUBSCRIBE packet with one filter under a fresh packet id.
    /// Returns the id and the bytes to transmit; fails with the request
    /// error, leaving the client unchanged, exactly when the packet cannot
    /// be framed.
    pub fn unsubscribe(&mut self, topic: &str) -> (r: Result<(u16, Vec<u8>), Error>)
        ensures
            match r {
                Ok((pid, bytes)) => {
                    &&& pid == old(self).next_packet_id
                    &&& bytes@ == spec_unsubscribe_packet_bytes(topic@, pid)
                    &&& spec_unsubscribe_body(topic@, pid).len() <= MAX_REMAINING_LENGTH
                    &&& *final(self) == (Client {
                        next_packet_id: spec_next_packet_id(old(self).next_packet_id),
                        ..*old(self)
                    })
                },
                Err(e) => {
                    &&& e == Error::RequestError
                    &&& spec_unsubscribe_body(topic@, old(self).next_packet_id).len()
                        > MAX_REMAINING_LENGTH
                    &&& *final(self) == *old(self)
                },
            },
    {
        let pid = self.next_packet_id;
        let filter_es = match EncodedString::try_new(topic) {
            Some(e) => e,
            None => {
                return Err(Error::RequestError);
            },
        };
        let header = Header::new(
            FixedHeader::Unsubscribe,
            Some(VariableHeader::Unsubscribe(Unsubscribe { packet_id: Integer::new(pid) })),
        );
        let ghost filter_view = filter_es;
        let mut filters: Vec<EncodedString> = Vec::new();
        filters.push(filter_es);
        proof {
            assert(filters@ =~= seq![filter_view]);
        }
        let payload = Payload { content: Some(Payloads::Unsubscribe(filters)) };
        let packet = ControlPacket { header, payload };
        proof {
            assert(seq![filter_view].drop_last() =~= Seq::<EncodedString>::empty());
            assert(seq![filter_view].last() == filter_view);
            assert(spec_unsub_entries_wire(Seq::<EncodedString>::empty()) == Seq::<u8>::empty());
            assert(spec_unsub_entries_wire(seq![filter_view]) =~= filter_view.wire());
            assert(packet.body_wire() =~= spec_unsubscribe_body(topic@, pid));
        }
        match packet.to_bytes() {
            Some(bytes) => {
                proof {
                    assert(bytes@ =~= spec_unsubscribe_packet_bytes(topic@, pid));
                }
                self.next_packet_id = if self.next_packet_id == 65535 {
                    0
                } else {
                    self.next_packet_id + 1
                };
                Ok((pid, bytes))
            },
            None => Err(Error::RequestError),
        }
    }

    /// Sets the intent to disconnect and returns the DISCONNECT packet's
    /// bytes. The intent is set before the packet is written, so a
    /// subsequent zero-byte read is a clean shutdown; if the write fails,
    /// the caller rolls the intent back with [`Client::disconnect_failed`].
    pub fn disconnect(&mut self) -> (r: Vec<u8>)
        ensures
            r@ == spec_disconnect_packet_bytes(),
            *final(self) == (Client { intent_disconnect: true, ..*old(self) }),
    {
        let packet = ControlPacket {
            header: Header::new(FixedHeader::Disconnect, None),
            payload: Payload { content: None },
        };
        self.intent_disconnect = true;
        proof {
            assert(packet.body_wire() =~= Seq::<u8>::empty());
        }
        let bytes = packet.to_bytes().unwrap();
        proof {
            assert(bytes@ =~= spec_disconnect_packet_bytes());
        }
        bytes
    }

    /// Rolls the disconnect intent back after the DISCONNECT packet could
    /// not be written, so the dispatch loop treats the eventual stream close
    /// as unexpected and reconnects instead of silently succeeding.
    pub fn disconnect_failed(&mut self)
        ensures
            *final(self) == (Client { intent_disconnect: false, ..*old(self) }),
    {
        self.intent_disconnect = false;
    }

    /// Decides what a zero-byte read means: a clean shutdown when a local
    /// disconnect was intended, otherwise an unexpected peer close that the
    /// dispatch loop answers with a reconnect attempt.
    pub fn on_stream_closed(&self) -> (r: CloseAction)
        ensures
            r == (if self.intent_disconnect {
                CloseAction::Disconnect
            } else {
                CloseAction::Reconnect
            }),
    {
        if self.intent_disconnect {
            CloseAction::Disconnect
        } else {
            CloseAction::Reconnect
        }
    }
}

/// Reconnect idempotence: a client whose stored identity matches the
/// arguments of its initial connect rebuilds, at every reconnect, a CONNECT
/// packet byte-identical to the one the initial connect transmitted.
pub proof fn lemma_reconnect_rebuilds_connect(
    client_id: Seq<char>,
    will: Option<Will>,
    clean_session: bool,
    username: Option<Seq<char>>,
    password: Option<Seq<char>>,
    c: Client,
)
    requires
        c.client_id@ == client_id,
        c.will == will,
        c.clean_session == clean_session,
        c.username_view() == username,
        c.password_view() == password,
    ensures
        c.spec_connect_wire() == spec_connect_packet_bytes(
            client_id,
            will,
            clean_session,
            username,
            password,
        ),
{
}

/// Packet-id correlation: the PUBACK frame that carries the id a publish
/// returned decodes to a PUBACK packet holding that id verbatim, and routing
/// that packet dispatches the same id to the publish callback.
pub proof fn lemma_publish_ack_correlation(pid: u16)
    ensures
        ({
            let p = spec_bare_packet(
                FixedHeader::Puback,
                VariableHeader::Puback(
                    PublishAcknowledge {
                        packet_id: Integer { msb: (pid / 256) as u8, lsb: (pid % 256) as u8 },
                    },
                ),
            );
            &&& p.wire() == seq![64u8, 2u8, (pid / 256) as u8, (pid % 256) as u8]
            &&& spec_decode_frame(
                64,
                seq![(pid / 256) as u8, (pid % 256) as u8],
                Ok(DecodeStatus::Packet(p)),
            )
            &&& spec_route(p) == DispatchAction::Publish(pid as i32)
        }),
{
    let p = spec_bare_packet(
        FixedHeader::Puback,
        VariableHeader::Puback(
            PublishAcknowledge {
                packet_id: Integer { msb: (pid / 256) as u8, lsb: (pid % 256) as u8 },
            },
        ),
    );
    assert(p.body_wire() =~= seq![(pid / 256) as u8, (pid % 256) as u8]);
    assert(p.wire() =~= seq![64u8, 2u8, (pid / 256) as u8, (pid % 256) as u8]);
    assert((pid / 256) * 256 + (pid % 256) == pid);
}

} // verus!
