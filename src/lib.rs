//! Object-safe adapters over asynchronous file and filesystem capabilities.
//!
//! Static capabilities (`Read`, `Write`, `Seek`, `Fs`) are bridged into
//! object-safe ones (`DynRead`, `DynWrite`, `DynSeek`, `DynFile`, `DynFs`), and a
//! boxed `DynFile` is bridged back into the static capabilities. Every dynamic
//! operation hands back a one-shot `Suspended` handle.
pub mod buf;
pub mod dynamic;
pub mod error;
pub mod file;
pub mod fs;
pub mod io;
pub mod marker;
pub mod suspend;

pub use buf::IoBuf;
pub use dynamic::{DynRead, DynSeek, DynWrite};
pub use error::Error;
pub use file::DynFile;
pub use fs::{DynFs, EntryList, FileMeta, Fs, MetaStream, OpenOptions, Path};
pub use io::{Read, Seek, Write};
pub use marker::{MaybeSend, MaybeSendFuture, MaybeSync};
pub use suspend::Suspended;
