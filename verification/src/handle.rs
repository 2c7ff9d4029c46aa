use vstd::prelude::*;

use crate::error::StoreError;
use crate::file::RemoteSeekableFile;

verus! {

/// A lazy, serializable capability to open one remote object: the
/// container, the key, and the object's total size as the catalog
/// captured it. Building a handle performs no I/O and holds no resource;
/// it is plain data, so it can be persisted or transmitted and opened
/// later, any number of times.
///
/// The captured `size` must equal the true remote size at construction
/// time; the store is not re-asked, so staleness is possible and goes
/// undetected — a known limitation of the capture, not something the
/// adapter hides.
pub struct RemoteFileHandle {
    /// The container that holds the object.
    pub container: String,
    /// The object's key within the container.
    pub key: String,
    /// The object's total size in bytes, captured from the catalog.
    pub size: u64,
}

impl RemoteFileHandle {
    /// Capture the triple that later opens the object. No I/O, no
    /// validation: the handle only records what the catalog said.
    pub fn new(container: String, key: String, size: u64) -> (h: RemoteFileHandle)
        ensures
            h.container@ == container@,
            h.key@ == key@,
            h.size == size,
    {
        RemoteFileHandle { container, key, size }
    }

    /// The captured size, with no network call at all.
    pub fn size(&self) -> (s: u64)
        ensures
            s == self.size,
    {
        self.size
    }

    /// Open a fresh seekable file over the object. The transport first
    /// probes whether the object can still be addressed (nothing of its
    /// content is fetched) and reports the answer in `addressable`; when
    /// the probe failed the open fails with `OpenError` and nothing is
    /// produced. Each successful open yields an independently owned file
    /// whose position starts at zero — instances opened from the same
    /// handle share no state.
    pub fn open(&self, addressable: bool) -> (r: Result<RemoteSeekableFile, StoreError>)
        ensures
            addressable ==> (r matches Ok(f)
                && f.container@ == self.container@
                && f.key@ == self.key@
                && f.size == self.size
                && f.position == 0),
            !addressable ==> (r matches Err(e) && e == StoreError::OpenError),
            r matches Ok(f) ==> f.wf(),
    {
        if addressable {
            Ok(RemoteSeekableFile {
                container: self.container.clone(),
                key: self.key.clone(),
                size: self.size,
                position: 0,
            })
        } else {
            Err(StoreError::OpenError)
        }
    }
}

} // verus!
