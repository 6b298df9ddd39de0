//! The file union and its bridge back into the static capabilities.
use crate::buf::{bytes_content, IoBuf};
use crate::dynamic::{bytes_result, DynRead, DynSeek, DynWrite};
use crate::error::Error;
use crate::io::{Read, Seek, Write};
use crate::suspend::Suspended;
use bytes::Bytes;
use vstd::prelude::*;

verus! {

/// A file behind dynamic dispatch: the methods of `DynRead`, `DynSeek` and
/// `DynWrite` together, under one object-safe trait.
///
/// Its relations speak of the file before a call and of the result only: a
/// relation that also named the file after the call would take `Self` as an
/// argument, and the trait could then no longer stand behind `dyn`.
pub trait DynFile: 'static {
    /// Whether a read of `len` bytes (to the end when `None`) at `pos` may yield `r`.
    spec fn file_read_post(&self, pos: u64, len: Option<u64>, r: Result<Seq<u8>, Error>) -> bool;

    /// Whether a length query may yield `r`.
    spec fn file_size_post(&self, r: Result<u64, Error>) -> bool;

    /// Whether moving to `pos` may yield `r`.
    spec fn file_seek_post(&self, pos: u64, r: Result<(), Error>) -> bool;

    /// Whether writing `data` may yield `r`.
    spec fn file_write_post(&self, data: Seq<u8>, r: Result<usize, Error>) -> bool;

    /// Whether committing the content may yield `r`.
    spec fn file_sync_data_post(&self, r: Result<(), Error>) -> bool;

    /// Whether committing content and metadata may yield `r`.
    spec fn file_sync_all_post(&self, r: Result<(), Error>) -> bool;

    /// Whether releasing the file may yield `r`.
    spec fn file_close_post(&self, r: Result<(), Error>) -> bool;

    fn read(&mut self, pos: u64, len: Option<u64>) -> (r: Suspended<Result<Bytes, Error>>)
        ensures
            !r.spent(),
            old(self).file_read_post(pos, len, bytes_result(r.output())),
    ;

    fn size(&self) -> (r: Suspended<Result<u64, Error>>)
        ensures
            !r.spent(),
            self.file_size_post(r.output()),
    ;

    fn seek(&mut self, pos: u64) -> (r: Suspended<Result<(), Error>>)
        ensures
            !r.spent(),
            old(self).file_seek_post(pos, r.output()),
    ;

    fn write(&mut self, buf: Bytes) -> (r: Suspended<(Result<usize, Error>, Bytes)>)
        ensures
            !r.spent(),
            old(self).file_write_post(bytes_content(buf), r.output().0),
            r.output().1 == buf,
    ;

    fn sync_data(&self) -> (r: Suspended<Result<(), Error>>)
        ensures
            !r.spent(),
            self.file_sync_data_post(r.output()),
    ;

    fn sync_all(&self) -> (r: Suspended<Result<(), Error>>)
        ensures
            !r.spent(),
            self.file_sync_all_post(r.output()),
    ;

    fn close(&mut self) -> (r: Suspended<Result<(), Error>>)
        ensures
            !r.spent(),
            old(self).file_close_post(r.output()),
    ;
}

/// Whatever reads, seeks and writes dynamically is a file, forwarding each
/// call to the capability it belongs to.
impl<F: DynRead + DynSeek + DynWrite + 'static> DynFile for F {
    open spec fn file_read_post(&self, pos: u64, len: Option<u64>, r: Result<Seq<u8>, Error>) -> bool {
        exists|a: F| <F as DynRead>::dyn_read_post(self, pos, len, r, &a)
    }

    open spec fn file_size_post(&self, r: Result<u64, Error>) -> bool {
        <F as DynRead>::dyn_size_post(self, r)
    }

    open spec fn file_seek_post(&self, pos: u64, r: Result<(), Error>) -> bool {
        exists|a: F| <F as DynSeek>::dyn_seek_post(self, pos, r, &a)
    }

    open spec fn file_write_post(&self, data: Seq<u8>, r: Result<usize, Error>) -> bool {
        exists|a: F| <F as DynWrite>::dyn_write_post(self, data, r, &a)
    }

    open spec fn file_sync_data_post(&self, r: Result<(), Error>) -> bool {
        <F as DynWrite>::dyn_sync_data_post(self, r)
    }

    open spec fn file_sync_all_post(&self, r: Result<(), Error>) -> bool {
        <F as DynWrite>::dyn_sync_all_post(self, r)
    }

    open spec fn file_close_post(&self, r: Result<(), Error>) -> bool {
        exists|a: F| <F as DynWrite>::dyn_close_post(self, r, &a)
    }

    fn read(&mut self, pos: u64, len: Option<u64>) -> (r: Suspended<Result<Bytes, Error>>) {
        <F as DynRead>::read(self, pos, len)
    }

    fn size(&self) -> (r: Suspended<Result<u64, Error>>) {
        <F as DynRead>::size(self)
    }

    fn seek(&mut self, pos: u64) -> (r: Suspended<Result<(), Error>>) {
        <F as DynSeek>::seek(self, pos)
    }

    fn write(&mut self, buf: Bytes) -> (r: Suspended<(Result<usize, Error>, Bytes)>) {
        <F as DynWrite>::write(self, buf)
    }

    fn sync_data(&self) -> (r: Suspended<Result<(), Error>>) {
        <F as DynWrite>::sync_data(self)
    }

    fn sync_all(&self) -> (r: Suspended<Result<(), Error>>) {
        <F as DynWrite>::sync_all(self)
    }

    fn close(&mut self) -> (r: Suspended<Result<(), Error>>) {
        <F as DynWrite>::close(self)
    }
}

/// Whether the boxed file `b` answers every operation exactly as the file `f`
/// does: the same reads, length, seeks, writes, syncs and close.
pub open spec fn boxes_file<F: DynFile>(b: Box<dyn DynFile>, f: F) -> bool {
    &&& forall|pos: u64, len: Option<u64>, r: Result<Seq<u8>, Error>|
        (*b).file_read_post(pos, len, r) == f.file_read_post(pos, len, r)
    &&& forall|r: Result<u64, Error>| (*b).file_size_post(r) == f.file_size_post(r)
    &&& forall|pos: u64, r: Result<(), Error>|
        (*b).file_seek_post(pos, r) == f.file_seek_post(pos, r)
    &&& forall|data: Seq<u8>, r: Result<usize, Error>|
        (*b).file_write_post(data, r) == f.file_write_post(data, r)
    &&& forall|r: Result<(), Error>| (*b).file_sync_data_post(r) == f.file_sync_data_post(r)
    &&& forall|r: Result<(), Error>| (*b).file_sync_all_post(r) == f.file_sync_all_post(r)
    &&& forall|r: Result<(), Error>| (*b).file_close_post(r) == f.file_close_post(r)
}

/// A boxed file moves to a new position exactly as the file inside does.
impl<'a> Seek for Box<dyn DynFile + 'a> {
    open spec fn seek_post(&self, pos: u64, r: Result<(), Error>, after: &Self) -> bool {
        (**self).file_seek_post(pos, r)
    }

    fn seek(&mut self, pos: u64) -> (r: Result<(), Error>) {
        DynFile::seek(&mut **self, pos).wait()
    }
}

/// A boxed file reads exactly as the file inside does, handing out the view.
impl<'a> Read for Box<dyn DynFile + 'a> {
    type Buf = Bytes;

    open spec fn read_post(&self, pos: u64, len: Option<u64>, r: Result<Seq<u8>, Error>, after: &Self) -> bool {
        (**self).file_read_post(pos, len, r)
    }

    open spec fn size_post(&self, r: Result<u64, Error>) -> bool {
        (**self).file_size_post(r)
    }

    fn read(&mut self, pos: u64, len: Option<u64>) -> (r: Result<Bytes, Error>) {
        DynFile::read(&mut **self, pos, len).wait()
    }

    fn size(&self) -> (r: Result<u64, Error>) {
        DynFile::size(&**self).wait()
    }
}

/// A boxed file writes exactly as the file inside does; the view it hands back
/// is dropped and the caller's own buffer is returned.
impl<'a> Write for Box<dyn DynFile + 'a> {
    open spec fn write_post(&self, data: Seq<u8>, r: Result<usize, Error>, after: &Self) -> bool {
        (**self).file_write_post(data, r)
    }

    open spec fn sync_data_post(&self, r: Result<(), Error>) -> bool {
        (**self).file_sync_data_post(r)
    }

    open spec fn sync_all_post(&self, r: Result<(), Error>) -> bool {
        (**self).file_sync_all_post(r)
    }

    open spec fn close_post(&self, r: Result<(), Error>, after: &Self) -> bool {
        (**self).file_close_post(r)
    }

    fn write<B: IoBuf>(&mut self, buf: B) -> (r: (Result<usize, Error>, B)) {
        let (result, _view) = DynFile::write(&mut **self, buf.as_bytes()).wait();
        (result, buf)
    }

    fn sync_data(&self) -> (r: Result<(), Error>) {
        DynFile::sync_data(&**self).wait()
    }

    fn sync_all(&self) -> (r: Result<(), Error>) {
        DynFile::sync_all(&**self).wait()
    }

    fn close(&mut self) -> (r: Result<(), Error>) {
        DynFile::close(&mut **self).wait()
    }
}

/// A boxed file, whatever it holds, reads exactly as the file inside it: the
/// same bytes at the same position, or the same failure.
pub proof fn lemma_boxed_read(
    file: Box<dyn DynFile>,
    pos: u64,
    len: Option<u64>,
    r: Result<Seq<u8>, Error>,
    after: Box<dyn DynFile>,
)
    ensures
        file.read_post(pos, len, r, &after) == (*file).file_read_post(pos, len, r),
{
}

/// A boxed file, whatever it holds, writes exactly as the file inside it: the
/// same byte count, or the same failure. Either way the caller gets its own
/// buffer back, as every `Write` promises.
pub proof fn lemma_boxed_write(
    file: Box<dyn DynFile>,
    data: Seq<u8>,
    r: Result<usize, Error>,
    after: Box<dyn DynFile>,
)
    ensures
        file.write_post(data, r, &after) == (*file).file_write_post(data, r),
{
}

/// A boxed file, whatever it holds, reports its length exactly as the file
/// inside it, an unsupported-operation failure included.
pub proof fn lemma_boxed_size(file: Box<dyn DynFile>, r: Result<u64, Error>)
    ensures
        file.size_post(r) == (*file).file_size_post(r),
{
}

} // verus!
