//! Dynamic read, write and seek, each bridged from its static capability with
//! one forwarded call, and each handing out a one-shot handle.
use crate::buf::{bytes_content, IoBuf};
use crate::error::Error;
use crate::io::{content_result, Read, Seek, Write};
use crate::suspend::Suspended;
use bytes::Bytes;
use vstd::prelude::*;

verus! {

/// The content of a shared-view result, with any failure kept as it is.
pub open spec fn bytes_result(r: Result<Bytes, Error>) -> Result<Seq<u8>, Error> {
    match r {
        Ok(b) => Ok(bytes_content(b)),
        Err(e) => Err(e),
    }
}

/// Positional reads that hand out a shared view, each through a one-shot handle.
pub trait DynRead {
    /// Whether a read of `len` bytes (to the end when `None`) at `pos` may
    /// yield `r` and leave the reader as `after`.
    spec fn dyn_read_post(&self, pos: u64, len: Option<u64>, r: Result<Seq<u8>, Error>, after: &Self) -> bool;

    /// Whether a length query may yield `r`.
    spec fn dyn_size_post(&self, r: Result<u64, Error>) -> bool;

    fn read(&mut self, pos: u64, len: Option<u64>) -> (r: Suspended<Result<Bytes, Error>>)
        ensures
            !r.spent(),
            old(self).dyn_read_post(pos, len, bytes_result(r.output()), &*final(self)),
    ;

    fn size(&self) -> (r: Suspended<Result<u64, Error>>)
        ensures
            !r.spent(),
            self.dyn_size_post(r.output()),
    ;
}

/// Every static reader is a dynamic one; its buffer becomes a shared view of
/// the same bytes.
impl<R: Read> DynRead for R {
    open spec fn dyn_read_post(&self, pos: u64, len: Option<u64>, r: Result<Seq<u8>, Error>, after: &Self) -> bool {
        self.read_post(pos, len, r, after)
    }

    open spec fn dyn_size_post(&self, r: Result<u64, Error>) -> bool {
        self.size_post(r)
    }

    fn read(&mut self, pos: u64, len: Option<u64>) -> (r: Suspended<Result<Bytes, Error>>) {
        let read = <R as Read>::read(self, pos, len);
        let ghost seen = content_result(read);
        let result = match read {
            Ok(buf) => Ok(buf.as_bytes()),
            Err(e) => Err(e),
        };
        assert(bytes_result(result) == seen);
        assert(old(self).read_post(pos, len, bytes_result(result), &*self));
        Suspended::ready(result)
    }

    fn size(&self) -> (r: Suspended<Result<u64, Error>>) {
        Suspended::ready(<R as Read>::size(self))
    }
}

/// Writes of shared views, syncs and close, each through a one-shot handle.
pub trait DynWrite {
    /// Whether writing `data` may yield `r` and leave the writer as `after`.
    spec fn dyn_write_post(&self, data: Seq<u8>, r: Result<usize, Error>, after: &Self) -> bool;

    /// Whether committing the content may yield `r`.
    spec fn dyn_sync_data_post(&self, r: Result<(), Error>) -> bool;

    /// Whether committing content and metadata may yield `r`.
    spec fn dyn_sync_all_post(&self, r: Result<(), Error>) -> bool;

    /// Whether releasing the writer may yield `r` and leave it as `after`.
    spec fn dyn_close_post(&self, r: Result<(), Error>, after: &Self) -> bool;

    /// Writes `buf`, handing the view back with the outcome.
    fn write(&mut self, buf: Bytes) -> (r: Suspended<(Result<usize, Error>, Bytes)>)
        ensures
            !r.spent(),
            old(self).dyn_write_post(bytes_content(buf), r.output().0, &*final(self)),
            r.output().1 == buf,
    ;

    fn sync_data(&self) -> (r: Suspended<Result<(), Error>>)
        ensures
            !r.spent(),
            self.dyn_sync_data_post(r.output()),
    ;

    fn sync_all(&self) -> (r: Suspended<Result<(), Error>>)
        ensures
            !r.spent(),
            self.dyn_sync_all_post(r.output()),
    ;

    fn close(&mut self) -> (r: Suspended<Result<(), Error>>)
        ensures
            !r.spent(),
            old(self).dyn_close_post(r.output(), &*final(self)),
    ;
}

/// Every static writer is a dynamic one, forwarding each call.
impl<W: Write> DynWrite for W {
    open spec fn dyn_write_post(&self, data: Seq<u8>, r: Result<usize, Error>, after: &Self) -> bool {
        self.write_post(data, r, after)
    }

    open spec fn dyn_sync_data_post(&self, r: Result<(), Error>) -> bool {
        self.sync_data_post(r)
    }

    open spec fn dyn_sync_all_post(&self, r: Result<(), Error>) -> bool {
        self.sync_all_post(r)
    }

    open spec fn dyn_close_post(&self, r: Result<(), Error>, after: &Self) -> bool {
        self.close_post(r, after)
    }

    fn write(&mut self, buf: Bytes) -> (r: Suspended<(Result<usize, Error>, Bytes)>) {
        let written = <W as Write>::write(self, buf);
        assert(old(self).write_post(bytes_content(buf), written.0, &*self));
        Suspended::ready(written)
    }

    fn sync_data(&self) -> (r: Suspended<Result<(), Error>>) {
        Suspended::ready(<W as Write>::sync_data(self))
    }

    fn sync_all(&self) -> (r: Suspended<Result<(), Error>>) {
        Suspended::ready(<W as Write>::sync_all(self))
    }

    fn close(&mut self) -> (r: Suspended<Result<(), Error>>) {
        let closed = <W as Write>::close(self);
        assert(old(self).close_post(closed, &*self));
        Suspended::ready(closed)
    }
}

/// Absolute positioning through a one-shot handle.
pub trait DynSeek {
    /// Whether moving to `pos` may yield `r` and leave the handle as `after`.
    spec fn dyn_seek_post(&self, pos: u64, r: Result<(), Error>, after: &Self) -> bool;

    fn seek(&mut self, pos: u64) -> (r: Suspended<Result<(), Error>>)
        ensures
            !r.spent(),
            old(self).dyn_seek_post(pos, r.output(), &*final(self)),
    ;
}

/// Every static seeker is a dynamic one, forwarding the call.
impl<S: Seek> DynSeek for S {
    open spec fn dyn_seek_post(&self, pos: u64, r: Result<(), Error>, after: &Self) -> bool {
        self.seek_post(pos, r, after)
    }

    fn seek(&mut self, pos: u64) -> (r: Suspended<Result<(), Error>>) {
        let moved = <S as Seek>::seek(self, pos);
        assert(old(self).seek_post(pos, moved, &*self));
        Suspended::ready(moved)
    }
}

/// Reading through the dynamic bridge yields exactly what the static read of
/// the same backend may yield, the same bytes or the same failure, and leaves
/// the backend in a state that one static read may leave it in.
pub proof fn lemma_read_bridge<R: Read>(
    backend: &R,
    pos: u64,
    len: Option<u64>,
    r: Result<Seq<u8>, Error>,
    after: &R,
)
    ensures
        <R as DynRead>::dyn_read_post(backend, pos, len, r, after) == backend.read_post(pos, len, r, after),
{
}

} // verus!
