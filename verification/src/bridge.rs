//! The decisions of the bridge to the rendering surface.
//!
//! The host reads and writes the surface's scroll offset and keeps the time;
//! what to do with a reading is decided here. A scroll write may come before
//! the surface has laid out its content and then has no effect, so it is
//! repeated at a fixed interval until the offset moves or a timeout passes.

use vstd::prelude::*;

verus! {

/// The time between two attempts of a scroll write, in milliseconds.
pub const POLL_INTERVAL_MS: u64 = 10;

/// The time after which a scroll write is given up, in milliseconds.
pub const POLL_TIMEOUT_MS: u64 = 200;

/// How far a scroll write has come.
#[derive(Clone, Copy, Debug, PartialEq, Eq, Structural)]
pub enum WriteStatus {
    /// The surface has not moved yet: the host writes again after the interval.
    Retrying,
    /// The write is over: it took effect, or it needed no retry.
    Done,
    /// The timeout passed before the surface moved. Nothing more is tried.
    GaveUp,
}

/// One scroll write in progress.
#[derive(Clone, Copy, Debug, PartialEq, Eq, Structural)]
pub struct ScrollWrite {
    /// The offset to write.
    pub target: i64,
    /// The offset that the surface reported before the first write.
    pub baseline: i64,
    pub status: WriteStatus,
}

/// What a clamped read returns.
#[derive(Clone, Copy, Debug, PartialEq, Eq, Structural)]
pub struct ClampedRead {
    /// The offset to report.
    pub value: i64,
    /// Whether the host must write `value` to the surface.
    pub forced: bool,
}

/// A write of a positive `target` left the reported offset where it was.
pub open spec fn write_ineffective(target: i64, before: i64, after: i64) -> bool {
    target > 0 && after == before
}

/// The write of `target` after its first attempt, where the surface reported
/// `before` ahead of the attempt and `after` behind it.
pub open spec fn begun(target: i64, before: i64, after: i64) -> ScrollWrite {
    ScrollWrite {
        target,
        baseline: before,
        status: if write_ineffective(target, before, after) {
            WriteStatus::Retrying
        } else {
            WriteStatus::Done
        },
    }
}

/// The status after a poll that found the surface at `observed`, `elapsed_ms`
/// after the first attempt. A finished write stays as it is. A retried one is
/// done once the surface has left the baseline, and given up once the timeout
/// has passed.
pub open spec fn polled_status(w: ScrollWrite, observed: i64, elapsed_ms: int) -> WriteStatus {
    if !(w.status is Retrying) {
        w.status
    } else if observed != w.baseline {
        WriteStatus::Done
    } else if elapsed_ms > POLL_TIMEOUT_MS {
        WriteStatus::GaveUp
    } else {
        WriteStatus::Retrying
    }
}

/// The write after such a poll: target and baseline stay.
pub open spec fn polled(w: ScrollWrite, observed: i64, elapsed_ms: int) -> ScrollWrite {
    ScrollWrite { status: polled_status(w, observed, elapsed_ms), ..w }
}

/// The write after a run of polls at the poll interval, of which the first
/// found the surface at `observed[0]`, the next at `observed[1]`, and so on.
pub open spec fn after_polls(w: ScrollWrite, observed: Seq<i64>) -> ScrollWrite
    decreases observed.len(),
{
    if observed.len() == 0 {
        w
    } else {
        polled(
            after_polls(w, observed.drop_last()),
            observed.last(),
            observed.len() * POLL_INTERVAL_MS,
        )
    }
}

impl ScrollWrite {
    /// Judges the first attempt of a write of `target`: the surface reported
    /// `before` ahead of it and `after` behind it.
    pub fn begin(target: i64, before: i64, after: i64) -> (w: ScrollWrite)
        ensures
            w == begun(target, before, after),
    {
        let status = if target > 0 && after == before {
            WriteStatus::Retrying
        } else {
            WriteStatus::Done
        };
        ScrollWrite { target, baseline: before, status }
    }

    /// Whether the host has to poll again.
    pub fn is_retrying(&self) -> (retrying: bool)
        ensures
            retrying == (self.status is Retrying),
    {
        match self.status {
            WriteStatus::Retrying => true,
            _ => false,
        }
    }

    /// One poll: the surface reports `observed`, `elapsed_ms` after the first
    /// attempt. Returns the offset to write again. A write that was still
    /// retried is repeated on every poll, on the one that ends it too; a
    /// finished one is not.
    pub fn poll(&mut self, observed: i64, elapsed_ms: u64) -> (write: Option<i64>)
        ensures
            *final(self) == polled(*old(self), observed, elapsed_ms as int),
            write == if old(self).status is Retrying {
                Some(old(self).target)
            } else {
                None::<i64>
            },
            elapsed_ms > POLL_TIMEOUT_MS ==> !(final(self).status is Retrying),
    {
        match self.status {
            WriteStatus::Retrying => {
                if observed != self.baseline {
                    self.status = WriteStatus::Done;
                } else if elapsed_ms > POLL_TIMEOUT_MS {
                    self.status = WriteStatus::GaveUp;
                }
                Some(self.target)
            },
            _ => None,
        }
    }
}

/// Holds a reading of the scroll offset at `min` or above: a reading at or
/// below `min` is reported as `min`, and the host forces the surface there.
pub fn clamped_read(observed: i64, min: i64) -> (read: ClampedRead)
    ensures
        read.forced == (observed <= min),
        read.value == if observed <= min {
            min
        } else {
            observed
        },
{
    if observed <= min {
        ClampedRead { value: min, forced: true }
    } else {
        ClampedRead { value: observed, forced: false }
    }
}

} // verus!
