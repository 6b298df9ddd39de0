use bytes::Bytes;
use fusio_dyn::{
    DynFile, DynFs, DynRead, DynWrite, EntryList, Error, FileMeta, Fs, IoBuf, MetaStream, OpenOptions, Path,
    Read, Seek, Suspended, Write,
};

#[derive(Default)]
struct MemFile {
    data: Vec<u8>,
    cursor: usize,
    closed: bool,
}

impl Read for MemFile {
    type Buf = Vec<u8>;

    fn read(&mut self, pos: u64, len: Option<u64>) -> Result<Vec<u8>, Error> {
        let start = (pos as usize).min(self.data.len());
        let end = match len {
            Some(n) => (start + n as usize).min(self.data.len()),
            None => self.data.len(),
        };
        Ok(self.data[start..end].to_vec())
    }

    fn size(&self) -> Result<u64, Error> {
        Ok(self.data.len() as u64)
    }
}

impl Write for MemFile {
    fn write<B: IoBuf>(&mut self, buf: B) -> (Result<usize, Error>, B) {
        if self.closed {
            return (Err(Error::Io { code: 9 }), buf);
        }
        let bytes = buf.as_bytes();
        let end = self.cursor + bytes.len();
        if self.data.len() < end {
            self.data.resize(end, 0);
        }
        self.data[self.cursor..end].copy_from_slice(&bytes);
        self.cursor = end;
        (Ok(bytes.len()), buf)
    }

    fn sync_data(&self) -> Result<(), Error> {
        Ok(())
    }

    fn sync_all(&self) -> Result<(), Error> {
        Ok(())
    }

    fn close(&mut self) -> Result<(), Error> {
        self.closed = true;
        Ok(())
    }
}

impl Seek for MemFile {
    fn seek(&mut self, pos: u64) -> Result<(), Error> {
        self.cursor = pos as usize;
        Ok(())
    }
}

/// A stream-like backend that never exposes its length.
struct Pipe {
    sent: Vec<u8>,
}

impl Read for Pipe {
    type Buf = Bytes;

    fn read(&mut self, _pos: u64, _len: Option<u64>) -> Result<Bytes, Error> {
        Ok(Bytes::copy_from_slice(&self.sent))
    }

    fn size(&self) -> Result<u64, Error> {
        Err(Error::Unsupported)
    }
}

impl Write for Pipe {
    fn write<B: IoBuf>(&mut self, buf: B) -> (Result<usize, Error>, B) {
        let bytes = buf.as_bytes();
        self.sent.extend_from_slice(&bytes);
        (Ok(bytes.len()), buf)
    }

    fn sync_data(&self) -> Result<(), Error> {
        Err(Error::Unsupported)
    }

    fn sync_all(&self) -> Result<(), Error> {
        Err(Error::Unsupported)
    }

    fn close(&mut self) -> Result<(), Error> {
        Ok(())
    }
}

impl Seek for Pipe {
    fn seek(&mut self, _pos: u64) -> Result<(), Error> {
        Err(Error::Unsupported)
    }
}

/// One directory per entry of `dirs`, each with its listing.
struct MemFs {
    dirs: Vec<(String, Vec<Result<FileMeta, Error>>)>,
    files: Vec<String>,
}

impl Fs for MemFs {
    type File = MemFile;
    type Entries = EntryList;

    fn open_options(&self, path: &Path, options: OpenOptions) -> Result<MemFile, Error> {
        if self.files.iter().any(|f| f.as_str() == path.as_str()) || options.create {
            Ok(MemFile::default())
        } else {
            Err(Error::NotFound)
        }
    }

    fn create_dir(path: &Path) -> Result<(), Error> {
        if path.as_str().is_empty() {
            Err(Error::AlreadyExists)
        } else {
            Ok(())
        }
    }

    fn list(&self, path: &Path) -> Result<EntryList, Error> {
        match self.dirs.iter().find(|(name, _)| name.as_str() == path.as_str()) {
            Some((_, items)) => Ok(EntryList::new(items.clone())),
            None => Err(Error::NotFound),
        }
    }

    fn remove(&self, path: &Path) -> Result<(), Error> {
        if self.files.iter().any(|f| f.as_str() == path.as_str()) {
            Ok(())
        } else {
            Err(Error::NotFound)
        }
    }
}

fn path(s: &str) -> Path {
    Path::new(s.to_string())
}

fn meta(name: &str, size: u64) -> FileMeta {
    FileMeta { path: path(name), size }
}

fn mem_fs() -> MemFs {
    MemFs {
        dirs: vec![
            ("empty".to_string(), vec![]),
            (
                "docs".to_string(),
                vec![Ok(meta("docs/a", 1)), Err(Error::Io { code: 5 }), Ok(meta("docs/b", 2))],
            ),
        ],
        files: vec!["notes".to_string()],
    }
}

fn copy_all<F: Read + Write + Seek>(file: &mut F, data: &[u8]) -> Vec<u8> {
    Seek::seek(file, 0).unwrap();
    let (written, _) = Write::write(file, data.to_vec());
    assert_eq!(written.unwrap(), data.len());
    let buf = Read::read(file, 0, None).unwrap();
    buf.as_bytes().to_vec()
}

#[test]
fn round_trip_through_union_file() {
    let mut file: Box<dyn DynFile> = Box::new(MemFile::default());
    let (written, back) = Write::write(&mut file, b"hello".to_vec());
    assert_eq!(written.unwrap(), 5);
    assert_eq!(back, b"hello".to_vec());
    Seek::seek(&mut file, 0).unwrap();
    let read = Read::read(&mut file, 0, Some(5)).unwrap();
    assert_eq!(&read[..], b"hello");
}

#[test]
fn unsupported_size_on_reverse_bridge() {
    let file: Box<dyn DynFile> = Box::new(Pipe { sent: vec![] });
    assert_eq!(Read::size(&file), Err(Error::Unsupported));
}

#[test]
fn size_on_reverse_bridge_is_forwarded() {
    let mut file: Box<dyn DynFile> = Box::new(MemFile::default());
    let _ = Write::write(&mut file, vec![1u8, 2, 3]);
    assert_eq!(Read::size(&file), Ok(3));
}

#[test]
fn listing_on_empty_directory() {
    let fs: Box<dyn DynFs> = Box::new(mem_fs());
    let mut entries = fs.list(&path("empty")).wait().unwrap();
    assert!(entries.next_entry().is_none());
    assert!(entries.next_entry().is_none());
}

#[test]
fn listing_keeps_order_and_failures() {
    let fs = mem_fs();
    let mut direct = Fs::list(&fs, &path("docs")).unwrap();
    let mut expected = vec![];
    while let Some(item) = direct.next_entry() {
        expected.push(item);
    }
    let dynamic: &dyn DynFs = &fs;
    let mut entries = dynamic.list(&path("docs")).wait().unwrap();
    let mut seen = vec![];
    while let Some(item) = entries.next_entry() {
        seen.push(item);
    }
    assert_eq!(seen.len(), 3);
    assert_eq!(seen, expected);
    assert_eq!(seen[0], Ok(meta("docs/a", 1)));
    assert_eq!(seen[1], Err(Error::Io { code: 5 }));
    assert_eq!(seen[2], Ok(meta("docs/b", 2)));
}

#[test]
fn listing_failure_is_passed_on() {
    let fs: Box<dyn DynFs> = Box::new(mem_fs());
    match fs.list(&path("missing")).wait() {
        Err(e) => assert_eq!(e, Error::NotFound),
        Ok(_) => panic!("listing a missing directory succeeded"),
    }
}

#[test]
fn suspension_yields_once() {
    let mut handle = Suspended::ready(7u32);
    assert!(!handle.is_spent());
    assert_eq!(handle.poll(), Some(7));
    assert!(handle.is_spent());
    assert_eq!(handle.poll(), None);
    assert_eq!(handle.poll(), None);
}

#[test]
fn suspension_wait_hands_out_the_result() {
    let handle = Suspended::ready(Ok::<u64, Error>(12));
    assert_eq!(handle.wait(), Ok(12));
}

#[test]
fn dynamic_read_matches_static_read() {
    let mut direct = MemFile { data: b"abcdef".to_vec(), cursor: 0, closed: false };
    let mut bridged = MemFile { data: b"abcdef".to_vec(), cursor: 0, closed: false };
    for (pos, len) in [(0u64, Some(3u64)), (2, None), (4, Some(10)), (9, Some(1))] {
        let expected = Read::read(&mut direct, pos, len).unwrap();
        let got = DynRead::read(&mut bridged, pos, len).wait().unwrap();
        assert_eq!(&got[..], &expected[..]);
    }
}

#[test]
fn dynamic_read_passes_failure_on() {
    let mut file = Pipe { sent: vec![] };
    assert_eq!(DynRead::size(&file).wait(), Err(Error::Unsupported));
    let got = DynRead::read(&mut file, 0, None).wait().unwrap();
    assert!(got.is_empty());
}

#[test]
fn boxed_write_returns_callers_buffer() {
    let mut direct = MemFile::default();
    let mut boxed: Box<dyn DynFile> = Box::new(MemFile::default());
    let buf = vec![9u8, 8, 7, 6];
    let (direct_count, direct_buf) = Write::write(&mut direct, buf.clone());
    let (boxed_count, boxed_buf) = Write::write(&mut boxed, buf.clone());
    assert_eq!(direct_count, boxed_count);
    assert_eq!(boxed_count, Ok(4));
    assert_eq!(direct_buf, buf);
    assert_eq!(boxed_buf, buf);
}

#[test]
fn boxed_write_failure_keeps_buffer() {
    let mut boxed: Box<dyn DynFile> = Box::new(MemFile::default());
    assert_eq!(Write::close(&mut boxed), Ok(()));
    let (count, back) = Write::write(&mut boxed, Bytes::from_static(b"late"));
    assert_eq!(count, Err(Error::Io { code: 9 }));
    assert_eq!(&back[..], b"late");
}

#[test]
fn dynamic_write_returns_the_view() {
    let mut file = MemFile::default();
    let view = Bytes::from_static(b"xyz");
    let (count, back) = DynWrite::write(&mut file, view.clone()).wait();
    assert_eq!(count, Ok(3));
    assert_eq!(back, view);
    assert_eq!(file.data, b"xyz".to_vec());
}

#[test]
fn syncs_are_forwarded() {
    let boxed: Box<dyn DynFile> = Box::new(Pipe { sent: vec![] });
    assert_eq!(Write::sync_data(&boxed), Err(Error::Unsupported));
    assert_eq!(Write::sync_all(&boxed), Err(Error::Unsupported));
    let mem: Box<dyn DynFile> = Box::new(MemFile::default());
    assert_eq!(Write::sync_data(&mem), Ok(()));
    assert_eq!(Write::sync_all(&mem), Ok(()));
}

#[test]
fn seek_failure_is_forwarded() {
    let mut boxed: Box<dyn DynFile> = Box::new(Pipe { sent: vec![] });
    assert_eq!(Seek::seek(&mut boxed, 3), Err(Error::Unsupported));
}

#[test]
fn union_completeness() {
    let mut concrete = MemFile::default();
    assert_eq!(copy_all(&mut concrete, b"one"), b"one".to_vec());
    let mut boxed: Box<dyn DynFile> = Box::new(MemFile::default());
    assert_eq!(copy_all(&mut boxed, b"two"), b"two".to_vec());
    let mut twice: Box<dyn DynFile> = Box::new(Box::new(MemFile::default()) as Box<dyn DynFile>);
    assert_eq!(copy_all(&mut twice, b"three"), b"three".to_vec());
}

#[test]
fn open_uses_default_options() {
    let fs: Box<dyn DynFs> = Box::new(mem_fs());
    assert!(fs.open(&path("notes")).wait().is_ok());
    match fs.open(&path("absent")).wait() {
        Err(e) => assert_eq!(e, Error::NotFound),
        Ok(_) => panic!("opened a missing file"),
    }
    let create = OpenOptions { create: true, ..OpenOptions::default() };
    let mut file = fs.open_options(&path("absent"), create).wait().unwrap();
    let (count, _) = Write::write(&mut file, b"new".to_vec());
    assert_eq!(count, Ok(3));
}

#[test]
fn default_open_options() {
    let options = OpenOptions::default();
    assert!(options.read);
    assert!(!options.write);
    assert!(!options.create);
    assert!(!options.truncate);
    assert!(!options.append);
}

#[test]
fn create_dir_and_remove_are_forwarded() {
    let fs: Box<dyn DynFs> = Box::new(mem_fs());
    assert_eq!(fs.create_dir(&path("fresh")).wait(), Ok(()));
    assert_eq!(fs.create_dir(&path("")).wait(), Err(Error::AlreadyExists));
    assert_eq!(fs.remove(&path("notes")).wait(), Ok(()));
    assert_eq!(fs.remove(&path("absent")).wait(), Err(Error::NotFound));
}

#[test]
fn vec_buffer_as_bytes_copies_content() {
    let buf = vec![1u8, 2, 3];
    let view = buf.as_bytes();
    assert_eq!(&view[..], &[1u8, 2, 3]);
    let empty: Vec<u8> = vec![];
    assert!(empty.as_bytes().is_empty());
}

#[test]
fn shared_view_as_bytes_keeps_content() {
    let view = Bytes::from_static(b"shared");
    let again = view.as_bytes();
    assert_eq!(again, view);
}

#[test]
fn path_keeps_its_text() {
    let p = path("dir/file.txt");
    assert_eq!(p.as_str(), "dir/file.txt");
}

#[test]
fn entry_list_hands_out_items_in_order() {
    let mut list = EntryList::new(vec![Ok(meta("x", 0)), Err(Error::NotFound)]);
    assert_eq!(list.next_entry(), Some(Ok(meta("x", 0))));
    assert_eq!(list.next_entry(), Some(Err(Error::NotFound)));
    assert_eq!(list.next_entry(), None);
    assert_eq!(list.next_entry(), None);
}
