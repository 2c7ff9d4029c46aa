use vstd::prelude::*;

verus! {

/// The failures that the catalog builder, the lazy file handle and the
/// remote seekable file can surface. Every operation's contract says
/// exactly which of these it returns and on which inputs; none of them
/// invalidates the value it came from — a later call at a valid position
/// may still succeed.
#[derive(Clone, Copy, Debug, PartialEq, Eq, Structural)]
pub enum StoreError {
    /// The remote store could not be reached at all while enumerating.
    ConnectionError,
    /// Listing a container's contents failed partway through enumeration.
    EnumerationError,
    /// A handle could not be validated against the remote store at open time.
    OpenError,
    /// The store rejected or failed a byte-range request.
    FetchError,
    /// The body of a range response could not be fully drained.
    StreamError,
    /// A seek resolved to a position outside the object's bounds.
    OutOfBoundsError,
    /// A seek anchored at the end with a negative magnitude, which this
    /// adapter deliberately leaves unsupported rather than mis-seek.
    UnsupportedSeekError,
}

} // verus!
