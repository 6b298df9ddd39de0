//! The static capabilities that a backend implements.
//!
//! Each operation is described by a relation that the backend chooses: what a
//! call may return and, for an operation on `&mut self`, in which state `after`
//! it leaves the backend. A backend that does not state a relation promises
//! nothing about that operation.
use crate::buf::IoBuf;
use crate::error::Error;
use vstd::prelude::*;

verus! {

/// The content of an owned-buffer result, with any failure kept as it is.
pub open spec fn content_result<B: IoBuf>(r: Result<B, Error>) -> Result<Seq<u8>, Error> {
    match r {
        Ok(b) => Ok(b.content()),
        Err(e) => Err(e),
    }
}

/// Positional reads and a length query.
pub trait Read {
    /// The owned buffer a read hands back.
    type Buf: IoBuf;

    /// Whether a read of `len` bytes (to the end when `None`) at `pos` may
    /// yield `r` and leave the backend as `after`.
    open spec fn read_post(&self, pos: u64, len: Option<u64>, r: Result<Seq<u8>, Error>, after: &Self) -> bool {
        true
    }

    /// Whether a length query may yield `r`.
    open spec fn size_post(&self, r: Result<u64, Error>) -> bool {
        true
    }

    fn read(&mut self, pos: u64, len: Option<u64>) -> (r: Result<Self::Buf, Error>)
        ensures
            old(self).read_post(pos, len, content_result(r), &*final(self)),
    ;

    fn size(&self) -> (r: Result<u64, Error>)
        ensures
            self.size_post(r),
    ;
}

/// Writes of owned buffers, syncs and close.
pub trait Write {
    /// Whether writing `data` may yield `r` and leave the backend as `after`.
    open spec fn write_post(&self, data: Seq<u8>, r: Result<usize, Error>, after: &Self) -> bool {
        true
    }

    /// Whether committing the content may yield `r`.
    open spec fn sync_data_post(&self, r: Result<(), Error>) -> bool {
        true
    }

    /// Whether committing content and metadata may yield `r`.
    open spec fn sync_all_post(&self, r: Result<(), Error>) -> bool {
        true
    }

    /// Whether releasing the backend may yield `r` and leave it as `after`.
    open spec fn close_post(&self, r: Result<(), Error>, after: &Self) -> bool {
        true
    }

    /// Writes `buf`, handing the buffer back whatever the outcome.
    fn write<B: IoBuf>(&mut self, buf: B) -> (r: (Result<usize, Error>, B))
        ensures
            old(self).write_post(buf.content(), r.0, &*final(self)),
            r.1 == buf,
    ;

    fn sync_data(&self) -> (r: Result<(), Error>)
        ensures
            self.sync_data_post(r),
    ;

    fn sync_all(&self) -> (r: Result<(), Error>)
        ensures
            self.sync_all_post(r),
    ;

    fn close(&mut self) -> (r: Result<(), Error>)
        ensures
            old(self).close_post(r, &*final(self)),
    ;
}

/// Absolute positioning.
pub trait Seek {
    /// Whether moving to `pos` may yield `r` and leave the backend as `after`.
    open spec fn seek_post(&self, pos: u64, r: Result<(), Error>, after: &Self) -> bool {
        true
    }

    fn seek(&mut self, pos: u64) -> (r: Result<(), Error>)
        ensures
            old(self).seek_post(pos, r, &*final(self)),
    ;
}

} // verus!
