//! A verified client-side implementation of the MQTT 3.1.1 control-packet
//! protocol: a wire codec for the packet subset a client exchanges with a
//! broker, a topic-filter matcher with wildcard semantics, and the
//! connection/dispatch state machine that builds requests, allocates packet
//! identifiers and routes inbound packets to callback events.
//!
//! All byte-level framing, matching and routing logic lives here and is
//! verified; opening sockets, reading and writing belongs to the embedding
//! application.

pub mod client;
pub mod topic_matcher;
pub mod types;
