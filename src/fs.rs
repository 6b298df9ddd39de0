//! Filesystems: the static capability, its object-safe form, and listings.
use crate::error::Error;
use crate::file::{boxes_file, DynFile};
use crate::io::{Read, Seek, Write};
use crate::marker::{MaybeSend, MaybeSync};
use crate::suspend::Suspended;
use vstd::prelude::*;

verus! {

/// A location in a filesystem, kept as its text.
#[derive(Debug, Clone, PartialEq, Eq)]
pub struct Path {
    raw: String,
}

impl View for Path {
    type V = Seq<char>;

    closed spec fn view(&self) -> Seq<char> {
        self.raw@
    }
}

impl Path {
    pub fn new(raw: String) -> (r: Path)
        ensures
            r@ == raw@,
    {
        Path { raw }
    }

    pub fn as_str(&self) -> (r: &str)
        ensures
            r@ == self@,
    {
        self.raw.as_str()
    }
}

/// What a listing reports of one entry.
#[derive(Debug, Clone, PartialEq, Eq)]
pub struct FileMeta {
    pub path: Path,
    pub size: u64,
}

/// How a file is opened.
#[derive(Debug, Clone, Copy, PartialEq, Eq)]
pub struct OpenOptions {
    pub read: bool,
    pub write: bool,
    pub create: bool,
    pub truncate: bool,
    pub append: bool,
}

/// The options used when none are given: read only, nothing created, cut or
/// appended.
pub open spec fn default_options() -> OpenOptions {
    OpenOptions { read: true, write: false, create: false, truncate: false, append: false }
}

impl Default for OpenOptions {
    fn default() -> (r: OpenOptions)
        ensures
            r == default_options(),
    {
        OpenOptions { read: true, write: false, create: false, truncate: false, append: false }
    }
}

/// The items of a listing, or the failure that stopped it from being made.
pub open spec fn listing_items<S: MetaStream>(r: Result<S, Error>) -> Result<Seq<Result<FileMeta, Error>>, Error> {
    match r {
        Ok(s) => Ok(s.remaining()),
        Err(e) => Err(e),
    }
}

/// A finite, one-shot sequence of listing items, handed out one at a time.
pub trait MetaStream {
    /// The items still to come, in order.
    spec fn remaining(&self) -> Seq<Result<FileMeta, Error>>;

    /// Hands out the next item, or `None` once the sequence is exhausted.
    fn next_entry(&mut self) -> (r: Option<Result<FileMeta, Error>>)
        ensures
            old(self).remaining().len() == 0 ==> r is None && final(self).remaining() == old(
                self,
            ).remaining(),
            old(self).remaining().len() > 0 ==> r == Some(old(self).remaining()[0])
                && final(self).remaining() == old(self).remaining().drop_first(),
    ;
}

/// A listing whose items were fetched up front, handed out in their order.
pub struct EntryList {
    items: Vec<Result<FileMeta, Error>>,
}

impl EntryList {
    pub fn new(items: Vec<Result<FileMeta, Error>>) -> (r: EntryList)
        ensures
            r.remaining() == items@,
    {
        EntryList { items }
    }

    /// Takes every item of `entries`, in order, failures included.
    pub fn collect<S: MetaStream>(entries: S) -> (r: EntryList)
        ensures
            r.remaining() == entries.remaining(),
    {
        let mut entries = entries;
        let ghost all = entries.remaining();
        let mut items: Vec<Result<FileMeta, Error>> = Vec::new();
        loop
            invariant
                items@ + entries.remaining() == all,
            ensures
                items@ == all,
            decreases entries.remaining().len(),
        {
            match entries.next_entry() {
                Some(item) => {
                    items.push(item);
                    assert(items@ + entries.remaining() =~= all);
                },
                None => {
                    assert(items@ + entries.remaining() =~= items@);
                    break ;
                },
            }
        }
        EntryList { items }
    }
}

impl MetaStream for EntryList {
    closed spec fn remaining(&self) -> Seq<Result<FileMeta, Error>> {
        self.items@
    }

    fn next_entry(&mut self) -> (r: Option<Result<FileMeta, Error>>) {
        if self.items.len() == 0 {
            None
        } else {
            Some(self.items.remove(0))
        }
    }
}

/// The static filesystem capability that a backend implements.
pub trait Fs: MaybeSend + MaybeSync {
    type File: Read + Write + Seek + 'static;

    type Entries: MetaStream + 'static;

    /// Whether opening `path` with `options` may yield `r`.
    open spec fn open_post(&self, path: Path, options: OpenOptions, r: Result<Self::File, Error>) -> bool {
        true
    }

    /// Whether creating the directory `path` may yield `r`.
    open spec fn create_dir_post(path: Path, r: Result<(), Error>) -> bool {
        true
    }

    /// Whether listing `path` may yield `r`.
    open spec fn list_post(&self, path: Path, r: Result<Self::Entries, Error>) -> bool {
        true
    }

    /// Whether removing `path` may yield `r`.
    open spec fn remove_post(&self, path: Path, r: Result<(), Error>) -> bool {
        true
    }

    fn open_options(&self, path: &Path, options: OpenOptions) -> (r: Result<Self::File, Error>)
        ensures
            self.open_post(*path, options, r),
    ;

    /// Opens `path` with the default options.
    fn open(&self, path: &Path) -> (r: Result<Self::File, Error>)
        ensures
            self.open_post(*path, default_options(), r),
    {
        self.open_options(path, OpenOptions::default())
    }

    fn create_dir(path: &Path) -> (r: Result<(), Error>)
        ensures
            Self::create_dir_post(*path, r),
    ;

    fn list(&self, path: &Path) -> (r: Result<Self::Entries, Error>)
        ensures
            self.list_post(*path, r),
    ;

    fn remove(&self, path: &Path) -> (r: Result<(), Error>)
        ensures
            self.remove_post(*path, r),
    ;
}

/// The object-safe filesystem: every operation hands back a one-shot handle,
/// files come boxed as `DynFile`, answering exactly as the backend's file, and
/// listings as an `EntryList` holding the backend's items in their order.
pub trait DynFs: MaybeSend + MaybeSync {
    /// Whether opening `path` with `options` may give the boxed file, or the
    /// failure, `r`.
    spec fn dyn_open_post(&self, path: Path, options: OpenOptions, r: Result<Box<dyn DynFile>, Error>) -> bool;

    /// Whether creating the directory `path` may yield `r`.
    spec fn dyn_create_dir_post(&self, path: Path, r: Result<(), Error>) -> bool;

    /// Whether listing `path` may yield the items `r`, or the failure `r`.
    spec fn dyn_list_post(&self, path: Path, r: Result<Seq<Result<FileMeta, Error>>, Error>) -> bool;

    /// Whether removing `path` may yield `r`.
    spec fn dyn_remove_post(&self, path: Path, r: Result<(), Error>) -> bool;

    /// Opens `path` with the default options.
    fn open(&self, path: &Path) -> (r: Suspended<Result<Box<dyn DynFile>, Error>>)
        ensures
            !r.spent(),
            self.dyn_open_post(*path, default_options(), r.output()),
    {
        self.open_options(path, OpenOptions::default())
    }

    fn open_options(&self, path: &Path, options: OpenOptions) -> (r: Suspended<
        Result<Box<dyn DynFile>, Error>,
    >)
        ensures
            !r.spent(),
            self.dyn_open_post(*path, options, r.output()),
    ;

    fn create_dir(&self, path: &Path) -> (r: Suspended<Result<(), Error>>)
        ensures
            !r.spent(),
            self.dyn_create_dir_post(*path, r.output()),
    ;

    fn list(&self, path: &Path) -> (r: Suspended<Result<EntryList, Error>>)
        ensures
            !r.spent(),
            self.dyn_list_post(*path, listing_items(r.output())),
    ;

    fn remove(&self, path: &Path) -> (r: Suspended<Result<(), Error>>)
        ensures
            !r.spent(),
            self.dyn_remove_post(*path, r.output()),
    ;
}

/// Every static filesystem is a dynamic one: each call is forwarded, its file
/// boxed, its listing's items taken in order, and its failure passed on
/// unchanged.
impl<F: Fs> DynFs for F {
    open spec fn dyn_open_post(&self, path: Path, options: OpenOptions, r: Result<Box<dyn DynFile>, Error>) -> bool {
        exists|s: Result<F::File, Error>|
            self.open_post(path, options, s) && match s {
                Ok(f) => r is Ok && boxes_file(r->Ok_0, f),
                Err(e) => r == Err::<Box<dyn DynFile>, Error>(e),
            }
    }

    open spec fn dyn_create_dir_post(&self, path: Path, r: Result<(), Error>) -> bool {
        F::create_dir_post(path, r)
    }

    open spec fn dyn_list_post(&self, path: Path, r: Result<Seq<Result<FileMeta, Error>>, Error>) -> bool {
        exists|s: Result<F::Entries, Error>| self.list_post(path, s) && listing_items(s) == r
    }

    open spec fn dyn_remove_post(&self, path: Path, r: Result<(), Error>) -> bool {
        self.remove_post(path, r)
    }

    fn open_options(&self, path: &Path, options: OpenOptions) -> (r: Suspended<
        Result<Box<dyn DynFile>, Error>,
    >) {
        let opened = <F as Fs>::open_options(self, path, options);
        let ghost before = opened;
        let result: Result<Box<dyn DynFile>, Error> = match opened {
            Ok(file) => {
                let ghost inner = file;
                let b: Box<dyn DynFile> = Box::new(file);
                assert(boxes_file(b, inner));
                Ok(b)
            },
            Err(e) => Err(e),
        };
        assert(self.open_post(*path, options, before));
        Suspended::ready(result)
    }

    fn create_dir(&self, path: &Path) -> (r: Suspended<Result<(), Error>>) {
        Suspended::ready(F::create_dir(path))
    }

    fn list(&self, path: &Path) -> (r: Suspended<Result<EntryList, Error>>) {
        let listed = <F as Fs>::list(self, path);
        let result: Result<EntryList, Error> = match listed {
            Ok(entries) => Ok(EntryList::collect(entries)),
            Err(e) => Err(e),
        };
        assert(self.list_post(*path, listed) && listing_items(listed) == listing_items(result));
        Suspended::ready(result)
    }

    fn remove(&self, path: &Path) -> (r: Suspended<Result<(), Error>>) {
        Suspended::ready(<F as Fs>::remove(self, path))
    }
}

/// Listing through the dynamic bridge gives either the backend's failure, or
/// every item of a listing the backend may give for that path: the same
/// items, as many, in the same order, with each failure in its place.
pub proof fn lemma_list_bridge<F: Fs>(fs: &F, path: Path, r: Result<Seq<Result<FileMeta, Error>>, Error>)
    ensures
        <F as DynFs>::dyn_list_post(fs, path, r) <==> (exists|s: Result<F::Entries, Error>|
            fs.list_post(path, s) && listing_items(s) == r),
{
}

} // verus!
