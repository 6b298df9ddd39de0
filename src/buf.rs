//! Owned byte buffers and their conversion to a shared immutable view.
use bytes::Bytes;
use vstd::prelude::*;

verus! {

/// `bytes::Bytes`, the shared immutable byte view, carried as an opaque value.
#[verifier::external_type_specification]
#[verifier::external_body]
pub struct ExBytes(Bytes);

/// The bytes that a shared view holds, in order.
pub uninterp spec fn bytes_content(b: Bytes) -> Seq<u8>;

/// Relies on `bytes::Bytes::copy_from_slice`: a new view holding a copy of `data`.
#[verifier::external_body]
fn bytes_copy(data: &[u8]) -> (r: Bytes)
    ensures
        bytes_content(r) == data@,
{
    Bytes::copy_from_slice(data)
}

/// Relies on `Clone for bytes::Bytes`: a second handle onto the same bytes.
#[verifier::external_body]
fn bytes_share(b: &Bytes) -> (r: Bytes)
    ensures
        bytes_content(r) == bytes_content(*b),
{
    b.clone()
}

/// An owned byte buffer that can be viewed as shared immutable bytes.
pub trait IoBuf: Sized {
    /// The bytes the buffer holds.
    spec fn content(&self) -> Seq<u8>;

    /// A shared view of the same bytes.
    fn as_bytes(&self) -> (r: Bytes)
        ensures
            bytes_content(r) == self.content(),
    ;
}

impl IoBuf for Vec<u8> {
    open spec fn content(&self) -> Seq<u8> {
        self@
    }

    fn as_bytes(&self) -> (r: Bytes) {
        bytes_copy(self.as_slice())
    }
}

impl IoBuf for Bytes {
    open spec fn content(&self) -> Seq<u8> {
        bytes_content(*self)
    }

    fn as_bytes(&self) -> (r: Bytes) {
        bytes_share(self)
    }
}

} // verus!
