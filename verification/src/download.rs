//! Download accounting.
//!
//! The artifact is streamed into memory in fixed-size chunks; between one
//! chunk and the next the caller polls the cancellation flag.  The tracker
//! here owns the byte counts and the progress fraction: received over the
//! announced content length, capped at one should the stream deliver more
//! bytes than were announced, and indeterminate (reported as zero) when no
//! length was announced.  The fraction therefore always lies in [0, 1].

use vstd::prelude::*;

use crate::archive::Progress;

verus! {

/// How many bytes one chunk read asks for.
pub open spec fn spec_chunk_size() -> usize {
    8192
}

/// The fixed chunk size of the download loop.
pub fn chunk_size() -> (r: usize)
    ensures
        r == spec_chunk_size(),
{
    8192
}

/// The download fraction for a byte count against an announced total:
/// received over total, capped at the whole, and zero of one when no total
/// was announced.
pub open spec fn capped_progress(received: u64, total: u64) -> Progress {
    if total > 0 {
        Progress {
            num: if received <= total {
                received
            } else {
                total
            },
            den: total,
        }
    } else {
        Progress { num: 0u64, den: 1u64 }
    }
}

/// The download fraction never exceeds the whole and never moves
/// backwards: its denominator is fixed for the run and its numerator only
/// grows with the received bytes.
pub proof fn lemma_download_progress_bounded_monotone(total: u64, fewer: u64, more: u64)
    requires
        fewer <= more,
    ensures
        capped_progress(fewer, total).num <= capped_progress(fewer, total).den,
        capped_progress(fewer, total).num <= capped_progress(more, total).num,
        capped_progress(fewer, total).den == capped_progress(more, total).den,
{
}

/// Byte accounting for one download: the announced content length (zero
/// when unknown) and the bytes received so far.
pub struct DownloadTracker {
    pub total: u64,
    pub received: u64,
}

impl DownloadTracker {
    /// Starts accounting against an announced content length; an absent
    /// length counts as zero, which makes progress indeterminate.
    pub fn new(content_length: Option<u64>) -> (r: Self)
        ensures
            r.total == (match content_length {
                Some(n) => n,
                None => 0u64,
            }),
            r.received == 0,
    {
        DownloadTracker {
            total: match content_length {
                Some(n) => n,
                None => 0,
            },
            received: 0,
        }
    }

    /// Accounts one received chunk.
    pub fn on_chunk(&mut self, n: u64)
        requires
            old(self).received + n <= u64::MAX,
        ensures
            final(self).received == old(self).received + n,
            final(self).total == old(self).total,
    {
        self.received = self.received + n;
    }

    /// The download's progress, as `capped_progress` describes: received
    /// over total when a content length was announced, capped at the
    /// whole; zero of one otherwise.
    pub fn progress(&self) -> (r: Progress)
        ensures
            r == capped_progress(self.received, self.total),
            r.num <= r.den,
    {
        if self.total > 0 {
            if self.received <= self.total {
                Progress { num: self.received, den: self.total }
            } else {
                Progress { num: self.total, den: self.total }
            }
        } else {
            Progress { num: 0, den: 1 }
        }
    }
}

} // verus!
