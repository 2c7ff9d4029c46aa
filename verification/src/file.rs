use vstd::prelude::*;
use vstd::math::min;

use crate::error::StoreError;

verus! {

/// Where a seek is anchored: the start of the object, the current
/// position, or the end of the object.
#[derive(Clone, Copy, Debug, PartialEq, Eq, Structural)]
pub enum SeekTarget {
    /// An absolute byte offset from the start of the object.
    Absolute(u64),
    /// A signed offset from the current position.
    Relative(i64),
    /// A signed offset from the end of the object. Only a zero offset is
    /// supported: resolving a backward distance from the end is rejected
    /// rather than risk a silent mis-seek.
    FromEnd(i64),
}

/// The byte range that one read call must request from the store.
#[derive(Clone, Copy, Debug, PartialEq, Eq, Structural)]
pub enum ReadPlan {
    /// Nothing is left to fetch: the read completes at once with zero
    /// bytes, and no request at all goes to the store.
    Empty,
    /// Request bytes `start .. end` (end exclusive) of the object.
    Fetch { start: u64, end: u64 },
}

/// What came back from the store for a planned range fetch. The transport
/// performs the request and reports one of these.
pub enum FetchOutcome {
    /// The request succeeded and the whole response body was drained into
    /// the carried bytes.
    Delivered(Vec<u8>),
    /// The store rejected or failed the range request.
    Rejected,
    /// The response body could not be fully drained.
    Interrupted,
}

/// A random-access read/seek view of one remote object. The transport is
/// stateless, so the only state here is the current `position`; every read
/// is planned as one byte-range fetch (`plan_read`) and completed with the
/// store's answer (`commit_read`), and a seek is a purely local change of
/// `position` with no I/O at all.
///
/// Nothing is cached: reading the same region twice plans two fetches.
/// Each instance is independently owned; instances opened from the same
/// handle share nothing.
pub struct RemoteSeekableFile {
    /// The container that holds the object.
    pub container: String,
    /// The object's key within the container.
    pub key: String,
    /// The object's total size in bytes, fixed when the handle was built.
    pub size: u64,
    /// The current read position, always within `0 ..= size`.
    pub position: u64,
}

impl RemoteSeekableFile {
    /// Well-formedness: the position never passes the end of the object.
    pub open spec fn wf(self) -> bool {
        self.position <= self.size
    }

    /// How many bytes a read of at most `n` bytes actually yields:
    /// whatever remains before the end of the object, clamped to `n`.
    pub open spec fn spec_read_len(self, n: int) -> int {
        min(n, self.size - self.position)
    }

    /// The range that a read of at most `n` bytes must request: empty at
    /// end-of-object or for `n == 0`, otherwise exactly the next
    /// `spec_read_len(n)` bytes, never reaching past `size`.
    pub open spec fn spec_plan_read(self, n: int) -> ReadPlan {
        if self.spec_read_len(n) == 0 {
            ReadPlan::Empty
        } else {
            ReadPlan::Fetch {
                start: self.position,
                end: (self.position + self.spec_read_len(n)) as u64,
            }
        }
    }

    /// The absolute offset that a seek target resolves to, before any
    /// bounds check.
    pub open spec fn resolved_target(self, target: SeekTarget) -> int {
        match target {
            SeekTarget::Absolute(p) => p as int,
            SeekTarget::Relative(d) => self.position + d,
            SeekTarget::FromEnd(d) => self.size + d,
        }
    }

    /// Whether a seek to `target` succeeds: the resolved offset lies in
    /// `0 ..= size`, and an end-anchored seek carries no offset.
    pub open spec fn seek_accepts(self, target: SeekTarget) -> bool {
        &&& 0 <= self.resolved_target(target) <= self.size
        &&& (target matches SeekTarget::FromEnd(d) ==> d == 0)
    }

    /// Which error a rejected seek returns: a backward end-anchored seek
    /// is unsupported, every other rejection is out of bounds.
    pub open spec fn seek_error(self, target: SeekTarget) -> StoreError {
        if target matches SeekTarget::FromEnd(d) && d < 0 {
            StoreError::UnsupportedSeekError
        } else {
            StoreError::OutOfBoundsError
        }
    }

    /// The full effect of a seek: the returned value and the file after
    /// the call. A rejected seek leaves the file exactly as it was.
    pub open spec fn spec_seek(self, target: SeekTarget) -> (Result<u64, StoreError>, RemoteSeekableFile) {
        if self.seek_accepts(target) {
            let q = self.resolved_target(target) as u64;
            (Ok(q), RemoteSeekableFile { position: q, ..self })
        } else {
            (Err(self.seek_error(target)), self)
        }
    }

    /// The full effect of completing a read of at most `n` bytes with the
    /// store's answer: the returned bytes or error, and the file after the
    /// call. Only a body of exactly the planned length advances the
    /// position; every failure leaves the file exactly as it was.
    pub open spec fn spec_commit_read(self, n: int, outcome: FetchOutcome) -> (Result<Vec<u8>, StoreError>, RemoteSeekableFile) {
        match outcome {
            FetchOutcome::Delivered(body) => {
                if body@.len() == self.spec_read_len(n) {
                    (
                        Ok(body),
                        RemoteSeekableFile { position: (self.position + body@.len()) as u64, ..self },
                    )
                } else {
                    (Err(StoreError::StreamError), self)
                }
            },
            FetchOutcome::Rejected => (Err(StoreError::FetchError), self),
            FetchOutcome::Interrupted => (Err(StoreError::StreamError), self),
        }
    }

    /// Move the position. Absolute and relative targets that resolve
    /// within `0 ..= size` succeed and return the new position; a target
    /// past the end, or a relative move below zero, fails with
    /// `OutOfBoundsError` and moves nothing. An end-anchored seek is
    /// accepted only with offset zero; a backward one fails with
    /// `UnsupportedSeekError`. No I/O happens here: the next read simply
    /// starts from the new position.
    pub fn seek(&mut self, target: SeekTarget) -> (r: Result<u64, StoreError>)
        requires
            old(self).wf(),
        ensures
            final(self).wf(),
            r == old(self).spec_seek(target).0,
            *final(self) == old(self).spec_seek(target).1,
    {
        match target {
            SeekTarget::Absolute(p) => {
                if p <= self.size {
                    self.position = p;
                    Ok(p)
                } else {
                    Err(StoreError::OutOfBoundsError)
                }
            },
            SeekTarget::Relative(d) => {
                if d >= 0 {
                    let forward = d as u64;
                    if forward <= self.size - self.position {
                        self.position = self.position + forward;
                        Ok(self.position)
                    } else {
                        Err(StoreError::OutOfBoundsError)
                    }
                } else {
                    let back: u64 = if d == i64::MIN {
                        0x8000_0000_0000_0000u64
                    } else {
                        (-d) as u64
                    };
                    if back <= self.position {
                        self.position = self.position - back;
                        Ok(self.position)
                    } else {
                        Err(StoreError::OutOfBoundsError)
                    }
                }
            },
            SeekTarget::FromEnd(d) => {
                if d == 0 {
                    self.position = self.size;
                    Ok(self.position)
                } else if d < 0 {
                    Err(StoreError::UnsupportedSeekError)
                } else {
                    Err(StoreError::OutOfBoundsError)
                }
            },
        }
    }

    /// Plan the byte range that a read of at most `n` bytes must fetch.
    /// The range is always clamped to the object: it never reaches past
    /// `size`, and once `position == size` (or when `n == 0`) the plan is
    /// `Empty` — the read is already complete with zero bytes and the
    /// store must not be asked for a zero-length range.
    pub fn plan_read(&self, n: usize) -> (plan: ReadPlan)
        requires
            self.wf(),
        ensures
            plan == self.spec_plan_read(n as int),
            plan matches ReadPlan::Fetch { start, end } ==> start == self.position && start < end <= self.size && end - start <= n,
    {
        if n == 0 || self.position == self.size {
            ReadPlan::Empty
        } else {
            let avail = self.size - self.position;
            let want: u64 = if (n as u64) <= avail {
                n as u64
            } else {
                avail
            };
            ReadPlan::Fetch { start: self.position, end: self.position + want }
        }
    }

    /// Complete a read of at most `n` bytes with what the transport did
    /// for the planned fetch. A fully delivered body of exactly the
    /// planned length is returned as the read's bytes and advances the
    /// position by that many bytes; a rejected request fails with
    /// `FetchError`, an undrained or wrongly sized body with
    /// `StreamError`, and every failure leaves the position unchanged.
    pub fn commit_read(&mut self, n: usize, outcome: FetchOutcome) -> (r: Result<Vec<u8>, StoreError>)
        requires
            old(self).wf(),
        ensures
            final(self).wf(),
            r == old(self).spec_commit_read(n as int, outcome).0,
            *final(self) == old(self).spec_commit_read(n as int, outcome).1,
    {
        match outcome {
            FetchOutcome::Delivered(body) => {
                let avail = self.size - self.position;
                let expected: u64 = if (n as u64) <= avail {
                    n as u64
                } else {
                    avail
                };
                if body.len() as u64 == expected {
                    self.position = self.position + expected;
                    Ok(body)
                } else {
                    Err(StoreError::StreamError)
                }
            },
            FetchOutcome::Rejected => Err(StoreError::FetchError),
            FetchOutcome::Interrupted => Err(StoreError::StreamError),
        }
    }
}

/// For every position `p` within the object and every buffer size `n`,
/// seeking to `p` absolutely succeeds, and completing the read with a
/// fully delivered body of the planned length returns exactly
/// `min(n, size - p)` bytes and leaves the position at `p` plus the
/// number of bytes returned.
pub proof fn lemma_seek_then_read(file: RemoteSeekableFile, p: u64, n: usize, body: Vec<u8>)
    requires
        file.wf(),
        p <= file.size,
        body@.len() == min(n as int, file.size - p),
    ensures
        ({
            let seeked = file.spec_seek(SeekTarget::Absolute(p));
            let read = seeked.1.spec_commit_read(n as int, FetchOutcome::Delivered(body));
            &&& seeked.0 matches Ok(q) && q == p
            &&& seeked.1.position == p
            &&& read.0 matches Ok(data) && data@ == body@ && data@.len() == min(n as int, file.size - p)
            &&& read.1.position == p + min(n as int, file.size - p)
        }),
{
}

/// Seeking to `size` and then reading returns zero bytes with no error:
/// the seek succeeds, the planned fetch is `Empty` — so no request is
/// issued at all — and the position stays at `size`.
pub proof fn lemma_read_at_end(file: RemoteSeekableFile, n: usize)
    requires
        file.wf(),
    ensures
        ({
            let seeked = file.spec_seek(SeekTarget::Absolute(file.size));
            &&& seeked.0 matches Ok(q) && q == file.size
            &&& seeked.1.position == file.size
            &&& seeked.1.spec_plan_read(n as int) == ReadPlan::Empty
        }),
{
}

/// Every absolute seek past the end of the object fails with
/// `OutOfBoundsError` and leaves the file, its position included,
/// exactly as it was.
pub proof fn lemma_seek_past_end(file: RemoteSeekableFile, p: u64)
    requires
        file.wf(),
        p > file.size,
    ensures
        ({
            let seeked = file.spec_seek(SeekTarget::Absolute(p));
            &&& seeked.0 matches Err(e) && e == StoreError::OutOfBoundsError
            &&& seeked.1 == file
        }),
{
}

/// Every relative seek that would resolve below zero fails with
/// `OutOfBoundsError` — it does not wrap — and leaves the file exactly
/// as it was.
pub proof fn lemma_seek_underflow(file: RemoteSeekableFile, d: i64)
    requires
        file.wf(),
        file.position + d < 0,
    ensures
        ({
            let seeked = file.spec_seek(SeekTarget::Relative(d));
            &&& seeked.0 matches Err(e) && e == StoreError::OutOfBoundsError
            &&& seeked.1 == file
        }),
{
}

/// A planned fetch, answered with a fully drained body of exactly the
/// planned length, always completes the read: the bytes come back as
/// delivered and the position advances to the end of the planned range.
pub proof fn lemma_planned_read_succeeds(file: RemoteSeekableFile, n: usize, body: Vec<u8>)
    requires
        file.wf(),
        file.spec_plan_read(n as int) matches ReadPlan::Fetch { start, end } && body@.len() == end - start,
    ensures
        ({
            let planned = file.spec_plan_read(n as int);
            let read = file.spec_commit_read(n as int, FetchOutcome::Delivered(body));
            &&& read.0 matches Ok(data) && data@ == body@
            &&& planned matches ReadPlan::Fetch { start, end } ==> read.1.position == end
        }),
{
}

/// The range a read plans is always clamped to the object: it starts at
/// the current position, never reaches past `size`, and asks for exactly
/// `min(n, size - position)` bytes — when `n` exceeds what remains, only
/// `size - position` bytes are requested.
pub proof fn lemma_plan_clamped(file: RemoteSeekableFile, n: usize)
    requires
        file.wf(),
    ensures
        file.spec_plan_read(n as int) matches ReadPlan::Fetch { start, end } ==> {
            &&& start == file.position
            &&& end <= file.size
            &&& end - start == min(n as int, file.size - file.position)
        },
        n > file.size - file.position ==> (file.spec_plan_read(n as int) matches ReadPlan::Fetch { start, end } ==> end == file.size),
{
}

} // verus!
