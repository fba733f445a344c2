//! The topic-matching handle of a message, and the capability through
//! which a router reaches it.
//!
//! The handle is `ntex::router::Path` over the topic text. A router
//! consumes leading parts of the path and records the segments that its
//! patterns captured; the text the handle was made from stays as it was.

use crate::buffer::text_of;
use bytestring::ByteString;
use ntex::router::Path;
use vstd::prelude::*;

verus! {

/// `ntex::router::Path`, carried through verified code as an opaque value.
#[verifier::external_type_specification]
#[verifier::external_body]
#[verifier::reject_recursive_types(T)]
pub struct ExPath<T>(Path<T>);

/// The text that a handle was made from or last set to.
pub uninterp spec fn path_text(p: Path<ByteString>) -> Seq<char>;

/// How many leading bytes of the text a router has consumed.
pub uninterp spec fn path_skip(p: Path<ByteString>) -> nat;

/// The captured segments of a handle, as name and value, in the order in
/// which they were recorded.
pub uninterp spec fn path_params(p: Path<ByteString>) -> Seq<(Seq<char>, Seq<char>)>;

/// A handle over `text` that no router has touched yet.
pub open spec fn is_fresh(p: Path<ByteString>, text: Seq<char>) -> bool {
    &&& path_text(p) == text
    &&& path_skip(p) == 0
    &&& path_params(p) == Seq::<(Seq<char>, Seq<char>)>::empty()
}

/// `Path::new`: stores the given text, with nothing consumed and no
/// segment captured.
#[verifier::external_body]
pub(crate) fn fresh_path(text: ByteString) -> (r: Path<ByteString>)
    ensures
        path_text(r) == text_of(text),
        path_skip(r) == 0,
        path_params(r) == Seq::<(Seq<char>, Seq<char>)>::empty(),
{
    Path::new(text)
}

/// Access to the topic-matching handle of a message, and to nothing else
/// of it.
pub trait Route {
    /// The handle that the two methods give access to.
    spec fn route_handle(&self) -> Path<ByteString>;

    /// The topic-matching handle.
    fn publish_topic(&self) -> (r: &Path<ByteString>)
        ensures
            *r == self.route_handle(),
    ;

    /// The topic-matching handle, for a router to consume and rewrite.
    /// Whatever is written through the reference is the handle afterwards.
    fn publish_topic_mut(&mut self) -> (r: &mut Path<ByteString>)
        ensures
            *r == old(self).route_handle(),
            final(self).route_handle() == *final(r),
    ;
}

} // verus!
