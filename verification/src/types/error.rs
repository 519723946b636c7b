//! The error kinds the library reports.

use vstd::prelude::*;

verus! {

/// Everything that can go wrong while building, sending or decoding packets.
#[derive(Debug, Default, Clone, PartialEq, Eq, PartialOrd, Ord)]
pub enum Error {
    /// An outbound packet could not be framed or written.
    RequestError,
    /// A SUBACK entry carried a QoS byte that was not 0, 1 or 2.
    SubscriptionAckhowledgeFailureError,
    /// A topic filter failed validation; carries the offending filter text.
    InvalidTopicMatcherError(&'static str),
    /// Reserved for publish-specific failures.
    PublicationError,
    /// The transport could not be opened or re-opened.
    ConnectionError,
    /// A buffered frame of a recognized packet type was genuinely invalid:
    /// its body is too short for the packet's variable header.
    MalformedPacket,
    #[default]
    Default,
}

} // verus!
