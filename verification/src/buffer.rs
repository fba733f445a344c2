//! The two byte containers that a packet carries: immutable UTF-8 text
//! (`bytestring::ByteString`) and the application payload (`bytes::Bytes`).
//!
//! Both are opaque to the verifier. What they hold is named by a
//! specification function each, and the few operations the library needs
//! are stated over those names.

use bytes::Bytes;
use bytestring::ByteString;
use vstd::prelude::*;

verus! {

/// `bytestring::ByteString`, carried through verified code as an opaque value.
#[verifier::external_type_specification]
#[verifier::external_body]
pub struct ExByteString(ByteString);

/// The characters of the text that a `ByteString` holds.
pub uninterp spec fn text_of(s: ByteString) -> Seq<char>;

/// `<ByteString as Clone>::clone`: the copy holds the same text. The crate
/// derives `Clone`, which clones the inner `Bytes` handle.
pub assume_specification[ <ByteString as Clone>::clone ](s: &ByteString) -> (r: ByteString)
    ensures
        text_of(r) == text_of(*s),
;

/// `<ByteString as Deref>::deref`: the string slice over the stored bytes,
/// which the crate keeps valid UTF-8 from construction on.
pub assume_specification<'a>[ <ByteString as core::ops::Deref>::deref ](s: &'a ByteString) -> (r: &'a str)
    ensures
        r@ == text_of(*s),
;

/// An application payload: a cheaply clonable, immutable run of bytes kept
/// in a reference-counted `bytes::Bytes`.
#[verifier::external_body]
#[derive(Debug)]
pub struct Payload {
    bytes: Bytes,
}

/// The bytes that a payload holds.
pub uninterp spec fn payload_bytes(p: Payload) -> Seq<u8>;

impl View for Payload {
    type V = Seq<u8>;

    open spec fn view(&self) -> Seq<u8> {
        payload_bytes(*self)
    }
}

/// `<Bytes as From<Vec<u8>>>::from`: takes the vector's storage over; the
/// buffer holds exactly the vector's elements.
#[verifier::external_body]
fn bytes_from_vec(data: Vec<u8>) -> (r: Payload)
    ensures
        payload_bytes(r) == data@,
{
    Payload { bytes: Bytes::from(data) }
}

/// `<Bytes as Deref>::deref`: the slice over the buffer's bytes.
#[verifier::external_body]
fn bytes_as_slice(p: &Payload) -> (r: &[u8])
    ensures
        r@ == payload_bytes(*p),
{
    std::ops::Deref::deref(&p.bytes)
}

/// `<Bytes as Clone>::clone`: a second handle to the same bytes.
#[verifier::external_body]
fn bytes_clone(p: &Payload) -> (r: Payload)
    ensures
        payload_bytes(r) == payload_bytes(*p),
{
    Payload { bytes: p.bytes.clone() }
}

impl Payload {
    /// Wraps the bytes of `data` without copying them.
    pub fn from_vec(data: Vec<u8>) -> (r: Payload)
        ensures
            r@ == data@,
    {
        bytes_from_vec(data)
    }

    /// A zero-copy view of the payload's bytes.
    pub fn as_slice(&self) -> (r: &[u8])
        ensures
            r@ == self@,
    {
        bytes_as_slice(self)
    }
}

impl Clone for Payload {
    /// A second handle to the same bytes; nothing is copied.
    fn clone(&self) -> (r: Payload)
        ensures
            r@ == self@,
    {
        bytes_clone(self)
    }
}

} // verus!
