//! One received PUBLISH message as the application sees it, and the
//! acknowledgment that answers it.

use crate::buffer::{text_of, Payload};
use crate::router::{fresh_path, is_fresh, Route};
use crate::v5::codec;
use crate::v5::codec::{PacketId, PublishAckReason, QoS, UserProperties};
use crate::v5::error::{decoded, decoded_spec, DecodeError};
use bytestring::ByteString;
use ntex::router::Path;
use serde::de::DeserializeOwned;
use std::ops::Deref;
use vstd::prelude::*;

verus! {

/// `serde_json::from_slice`: decodes one JSON value of type `T` from the
/// whole of `bytes`. What comes back depends on how `T` reads the decoder,
/// so nothing is stated of it.
#[verifier::external_body]
fn parse_json<T: DeserializeOwned>(bytes: &[u8]) -> (r: Result<T, serde_json::Error>) {
    serde_json::from_slice(bytes)
}

/// Whether `outcome` is what the JSON decoder can give when it is asked
/// for a value of type `T` and handed exactly `bytes`.
pub closed spec fn json_outcome<T: DeserializeOwned>(
    bytes: Seq<u8>,
    outcome: Result<T, serde_json::Error>,
) -> bool {
    exists|input: &[u8]| input@ == bytes && call_ensures(parse_json::<T>, (input,), outcome)
}

/// A packet that is known to be valid.
struct Checked {
    packet: codec::Publish,
}

impl Checked {
    #[verifier::type_invariant]
    spec fn packet_is_valid(self) -> bool {
        self.packet.valid()
    }
}

/// Publish message
pub struct Publish {
    publish: Checked,
    topic: Path<ByteString>,
}

impl Publish {
    /// The packet that the wrapper owns.
    pub closed spec fn packet_spec(&self) -> codec::Publish {
        self.publish.packet
    }

    /// The topic-matching handle as it stands.
    pub closed spec fn topic_spec(&self) -> Path<ByteString> {
        self.topic
    }

    /// This wrapper with `handle` as its topic-matching handle: what
    /// writing `handle` through `topic_mut` leaves.
    pub closed spec fn with_handle(self, handle: Path<ByteString>) -> Publish {
        Publish { publish: self.publish, topic: handle }
    }

    /// Wraps a decoded packet. The topic-matching handle starts as a fresh
    /// handle over a copy of the packet's topic.
    pub fn new(publish: codec::Publish) -> (r: Self)
        requires
            publish.valid(),
        ensures
            r.packet_spec() == publish,
            is_fresh(r.topic_spec(), text_of(publish.topic)),
    {
        let topic = fresh_path(publish.topic.clone());
        Publish { publish: Checked { packet: publish }, topic }
    }

    /// Wraps a decoded packet if it is valid, and hands it back if not.
    pub fn try_new(publish: codec::Publish) -> (r: Result<Self, codec::Publish>)
        ensures
            publish.valid() ==> r is Ok && r->Ok_0.packet_spec() == publish && is_fresh(
                r->Ok_0.topic_spec(),
                text_of(publish.topic),
            ),
            !publish.valid() ==> r == Err::<Self, codec::Publish>(publish),
    {
        if publish.is_valid() {
            Ok(Publish::new(publish))
        } else {
            Err(publish)
        }
    }

    /// this might be re-delivery of an earlier attempt to send the Packet.
    #[inline]
    pub fn dup(&self) -> (r: bool)
        ensures
            r == self.packet_spec().dup,
    {
        self.publish.packet.dup
    }

    /// the broker is to retain the message as the last known value of the
    /// topic.
    #[inline]
    pub fn retain(&self) -> (r: bool)
        ensures
            r == self.packet_spec().retain,
    {
        self.publish.packet.retain
    }

    /// the level of assurance for delivery of an Application Message.
    #[inline]
    pub fn qos(&self) -> (r: QoS)
        ensures
            r == self.packet_spec().qos,
    {
        self.publish.packet.qos
    }

    /// the information channel to which payload data is published: the
    /// topic as it was decoded, whatever has been done to the handle.
    #[inline]
    pub fn publish_topic(&self) -> (r: &str)
        ensures
            r@ == self.packet_spec()@.topic,
            r@.len() > 0,
    {
        proof {
            use_type_invariant(&self.publish);
        }
        self.publish.packet.topic.deref()
    }

    /// only present in PUBLISH Packets where the QoS level is 1 or 2.
    #[inline]
    pub fn id(&self) -> (r: Option<PacketId>)
        ensures
            r == self.packet_spec().packet_id,
            r is Some <==> self.packet_spec().qos.needs_id(),
    {
        proof {
            use_type_invariant(&self.publish);
        }
        self.publish.packet.packet_id
    }

    /// The topic-matching handle.
    #[inline]
    pub fn topic(&self) -> (r: &Path<ByteString>)
        ensures
            *r == self.topic_spec(),
    {
        &self.topic
    }

    /// The topic-matching handle, for a router to consume and rewrite.
    /// Whatever is written through the reference is the handle afterwards,
    /// and nothing else of the wrapper changes.
    #[inline]
    pub fn topic_mut(&mut self) -> (r: &mut Path<ByteString>)
        ensures
            *r == old(self).topic_spec(),
            *final(self) == old(self).with_handle(*final(r)),
    {
        &mut self.topic
    }

    /// The whole decoded packet, which is valid.
    #[inline]
    pub fn packet(&self) -> (r: &codec::Publish)
        ensures
            *r == self.packet_spec(),
            r.valid(),
    {
        proof {
            use_type_invariant(&self.publish);
        }
        &self.publish.packet
    }

    /// the Application Message that is being published.
    #[inline]
    pub fn payload(&self) -> (r: &Payload)
        ensures
            *r == self.packet_spec().payload,
            r@ == self.packet_spec()@.payload,
    {
        &self.publish.packet.payload
    }

    /// A second handle to the payload, cheap to make, for code that
    /// outlives the wrapper. It holds the bytes that `payload` shows.
    pub fn take_payload(&self) -> (r: Payload)
        ensures
            r@ == self.packet_spec()@.payload,
    {
        self.publish.packet.payload.clone()
    }

    /// Loads and parse `application/json` encoded body: hands exactly the
    /// payload's bytes to the decoder and returns what it gives, a failure
    /// wrapped with its cause kept. The wrapper is left as it was, whether
    /// the payload decodes or not.
    pub fn json<T: DeserializeOwned>(&mut self) -> (r: Result<T, DecodeError>)
        ensures
            *final(self) == *old(self),
            exists|outcome: Result<T, serde_json::Error>|
                json_outcome(old(self).packet_spec()@.payload, outcome) && r == decoded_spec(
                    outcome,
                ),
    {
        let bytes = self.publish.packet.payload.as_slice();
        let outcome = parse_json::<T>(bytes);
        proof {
            assert(json_outcome::<T>(bytes@, outcome));
        }
        decoded(outcome)
    }

    /// Successfully ack publish packet
    pub fn ack(self) -> (r: PublishAck)
        ensures
            r.reason_code == PublishAckReason::Success,
            r.properties@ == Seq::<(ByteString, ByteString)>::empty(),
            r.reason_string is None,
    {
        PublishAck {
            reason_code: PublishAckReason::Success,
            properties: Vec::new(),
            reason_string: None,
        }
    }
}

impl Route for Publish {
    open spec fn route_handle(&self) -> Path<ByteString> {
        self.topic_spec()
    }

    #[inline]
    fn publish_topic(&self) -> (r: &Path<ByteString>) {
        &self.topic
    }

    #[inline]
    fn publish_topic_mut(&mut self) -> (r: &mut Path<ByteString>)
        ensures
            *final(self) == old(self).with_handle(*final(r)),
    {
        &mut self.topic
    }
}

/// Whatever a router writes to the topic-matching handle, the packet stays
/// as it was decoded, its topic included: only the handle is what was
/// written.
pub proof fn lemma_handle_is_apart_from_packet(message: Publish, handle: Path<ByteString>)
    ensures
        message.with_handle(handle).packet_spec() == message.packet_spec(),
        message.with_handle(handle).packet_spec()@.topic == message.packet_spec()@.topic,
        message.with_handle(handle).topic_spec() == handle,
{
}

/// The acknowledgment of a publish, as it is being built.
#[derive(Debug)]
pub struct PublishAck {
    /// The outcome that the acknowledgment reports.
    pub reason_code: PublishAckReason,
    /// Application-defined metadata.
    pub properties: UserProperties,
    /// Diagnostic text for a human reader.
    pub reason_string: Option<ByteString>,
}

impl PublishAck {
    /// This acknowledgment with `reason` as its reason string.
    pub open spec fn with_reason(self, reason: ByteString) -> PublishAck {
        PublishAck {
            reason_code: self.reason_code,
            properties: self.properties,
            reason_string: Some(reason),
        }
    }

    /// Lets `f` change the user properties in place. `f` sees the property
    /// list and nothing else of the acknowledgment.
    pub fn properties<F>(self, f: F) -> (r: Self) where F: FnOnce(&mut UserProperties)
        requires
            forall|p: &mut UserProperties| *p == self.properties ==> call_requires(f, (p,)),
        ensures
            r.reason_code == self.reason_code,
            r.reason_string == self.reason_string,
            exists|p: &mut UserProperties|
                *p == self.properties && *final(p) == r.properties && call_ensures(f, (p,), ()),
    {
        let mut ack = self;
        f(&mut ack.properties);
        ack
    }

    /// Sets the reason string, in place of any that was set before.
    pub fn reason(self, reason: ByteString) -> (r: Self)
        ensures
            r == self.with_reason(reason),
    {
        let mut ack = self;
        ack.reason_string = Some(reason);
        ack
    }
}

/// Of two reason strings set one after the other, the second is the one
/// that stays: the outcome is as if the first had never been set.
pub proof fn lemma_reason_last_wins(ack: PublishAck, first: ByteString, second: ByteString)
    ensures
        ack.with_reason(first).with_reason(second) == ack.with_reason(second),
        ack.with_reason(first).with_reason(second).reason_string == Some(second),
{
}

} // verus!
