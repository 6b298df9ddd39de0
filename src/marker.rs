//! Thread-affinity markers applied uniformly to every erased handle.
use vstd::prelude::*;

verus! {

/// Values that may cross a suspension point onto another worker thread.
pub trait MaybeSend: Send {}

impl<T: Send> MaybeSend for T {}

/// Values that may be referenced from several threads at once.
pub trait MaybeSync: Sync {}

impl<T: Sync> MaybeSync for T {}

/// A pending computation that satisfies the thread-affinity marker.
pub trait MaybeSendFuture: core::future::Future + MaybeSend {}

impl<F: core::future::Future + MaybeSend> MaybeSendFuture for F {}

} // verus!
