//! The decoded packet structures that the wrapper and the acknowledgment
//! builder hold. Nothing here reads or writes the wire format.

use crate::buffer::{text_of, Payload};
use bytestring::ByteString;
use std::ops::Deref;
use vstd::prelude::*;

verus! {

/// Delivery assurance level of an application message.
#[derive(Clone, Copy, Debug, PartialEq, Eq, Structural)]
pub enum QoS {
    /// Delivered at most once; never acknowledged.
    AtMostOnce,
    /// Delivered at least once; acknowledged, duplicates possible.
    AtLeastOnce,
    /// Delivered exactly once, by a two-phase acknowledgment.
    ExactlyOnce,
}

impl QoS {
    /// Whether a message at this level carries a packet identifier.
    pub open spec fn needs_id(self) -> bool {
        self != QoS::AtMostOnce
    }

    /// Whether a message at this level has to be acknowledged, and so
    /// carries a packet identifier.
    pub fn acknowledged(self) -> (r: bool)
        ensures
            r == self.needs_id(),
    {
        match self {
            QoS::AtMostOnce => false,
            QoS::AtLeastOnce => true,
            QoS::ExactlyOnce => true,
        }
    }
}

/// Outcome that an acknowledgment of a publish reports.
#[derive(Clone, Copy, Debug, PartialEq, Eq, Structural)]
pub enum PublishAckReason {
    Success,
    NoMatchingSubscribers,
    UnspecifiedError,
    ImplementationSpecificError,
    NotAuthorized,
    TopicNameInvalid,
    PacketIdentifierInUse,
    QuotaExceeded,
    PayloadFormatInvalid,
}

/// A packet identifier: a 16-bit number that is never zero.
#[derive(Clone, Copy, Debug, PartialEq, Eq, Structural)]
pub struct PacketId {
    value: u16,
}

impl View for PacketId {
    type V = u16;

    closed spec fn view(&self) -> u16 {
        self.value
    }
}

impl PacketId {
    #[verifier::type_invariant]
    spec fn nonzero(self) -> bool {
        self.value != 0
    }

    /// The identifier with the given number, unless the number is zero.
    pub fn new(value: u16) -> (r: Option<PacketId>)
        ensures
            value == 0 ==> r is None,
            value != 0 ==> r is Some && r->0@ == value,
    {
        if value == 0 {
            None
        } else {
            Some(PacketId { value })
        }
    }

    /// The identifier's number.
    pub fn get(self) -> (r: u16)
        ensures
            r == self@,
            r != 0,
    {
        proof {
            use_type_invariant(self);
        }
        self.value
    }
}

/// User properties: key and value pairs in the order of insertion. A key
/// may occur more than once.
pub type UserProperties = Vec<(ByteString, ByteString)>;

/// The keys and values of a property list, as text.
pub open spec fn properties_text(props: Seq<(ByteString, ByteString)>) -> Seq<(Seq<char>, Seq<char>)> {
    props.map_values(|kv: (ByteString, ByteString)| (text_of(kv.0), text_of(kv.1)))
}

/// A decoded PUBLISH packet.
#[derive(Debug)]
pub struct Publish {
    /// This may be a re-delivery of an earlier attempt to send the packet.
    pub dup: bool,
    /// The broker is to keep the message as the last known value of the topic.
    pub retain: bool,
    /// The level of assurance for delivery.
    pub qos: QoS,
    /// The information channel to which the payload is published.
    pub topic: ByteString,
    /// Present where the level of assurance asks for an acknowledgment.
    pub packet_id: Option<PacketId>,
    /// The application message.
    pub payload: Payload,
    /// Application-defined metadata.
    pub properties: UserProperties,
}

/// What a decoded PUBLISH packet holds, as plain values.
pub ghost struct PublishView {
    pub dup: bool,
    pub retain: bool,
    pub qos: QoS,
    pub topic: Seq<char>,
    pub packet_id: Option<u16>,
    pub payload: Seq<u8>,
    pub properties: Seq<(Seq<char>, Seq<char>)>,
}

impl View for Publish {
    type V = PublishView;

    open spec fn view(&self) -> PublishView {
        PublishView {
            dup: self.dup,
            retain: self.retain,
            qos: self.qos,
            topic: text_of(self.topic),
            packet_id: match self.packet_id {
                Some(id) => Some(id@),
                None => None,
            },
            payload: self.payload@,
            properties: properties_text(self.properties@),
        }
    }
}

impl Publish {
    /// What the protocol asks of every PUBLISH packet: the topic is not
    /// empty, and a packet identifier is present exactly where the level
    /// of assurance asks for an acknowledgment.
    pub open spec fn valid(&self) -> bool {
        &&& text_of(self.topic).len() > 0
        &&& (self.packet_id is Some <==> self.qos.needs_id())
    }

    /// Tests what `valid` states.
    pub fn is_valid(&self) -> (r: bool)
        ensures
            r == self.valid(),
    {
        !self.topic.deref().is_empty() && self.packet_id.is_some() == self.qos.acknowledged()
    }
}

} // verus!
