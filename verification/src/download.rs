//! Progress of a model download: the count of bytes received, and when the front end
//! is told about it.
use vstd::prelude::*;

verus! {

/// The front end is told of the progress each time at least this many bytes have
/// arrived since it was last told.
pub const PROGRESS_STEP: u64 = 524288;

/// What the front end is told: the bytes received so far and, when the server said so,
/// the size of the whole file.
#[derive(Clone, Copy, Debug)]
pub struct ModelDownloadProgress {
    pub downloaded_bytes: u64,
    pub total_bytes: Option<u64>,
}

/// The count after a chunk of `len` bytes arrives, stopping at `u64::MAX`.
pub open spec fn counted(received: u64, len: usize) -> u64 {
    if received + len > u64::MAX {
        u64::MAX
    } else {
        (received + len) as u64
    }
}

/// The count after each chunk of a sequence arrives in turn, from `start`.
pub open spec fn counted_all(start: u64, chunks: Seq<usize>) -> u64
    decreases chunks.len(),
{
    if chunks.len() == 0 {
        start
    } else {
        counted_all(counted(start, chunks[0]), chunks.drop_first())
    }
}

/// The sum of the chunk lengths.
pub open spec fn total_length(chunks: Seq<usize>) -> nat
    decreases chunks.len(),
{
    if chunks.len() == 0 {
        0
    } else {
        chunks[0] as nat + total_length(chunks.drop_first())
    }
}

/// However the bytes are split into chunks, the count is their total, or `u64::MAX`
/// when the total is larger.
pub proof fn lemma_count_is_total(start: u64, chunks: Seq<usize>)
    ensures
        counted_all(start, chunks) == if start + total_length(chunks) > u64::MAX {
            u64::MAX as int
        } else {
            start + total_length(chunks)
        },
    decreases chunks.len(),
{
    if chunks.len() > 0 {
        lemma_count_is_total(counted(start, chunks[0]), chunks.drop_first());
    }
}

/// Whether an HTTP status is a success: 200 to 299.
pub fn status_is_success(code: u16) -> (r: bool)
    ensures
        r == (200 <= code && code < 300),
{
    200 <= code && code < 300
}

/// The bytes received so far and the count last reported.
pub struct DownloadProgress {
    downloaded: u64,
    last_reported: u64,
}

impl DownloadProgress {
    /// Nothing is reported before anything was received.
    pub closed spec fn wf(self) -> bool {
        self.last_reported <= self.downloaded
    }

    /// Bytes received so far.
    pub closed spec fn received(self) -> u64 {
        self.downloaded
    }

    /// The count last reported.
    pub closed spec fn reported(self) -> u64 {
        self.last_reported
    }

    /// A download that has received nothing.
    pub fn new() -> (r: DownloadProgress)
        ensures
            r.received() == 0,
            r.reported() == 0,
            r.wf(),
    {
        DownloadProgress { downloaded: 0, last_reported: 0 }
    }

    /// Counts a chunk (the count stops at `u64::MAX`) and says whether the front end is
    /// to be told now: when at least `PROGRESS_STEP` bytes arrived since it was last told.
    pub fn record_chunk(&mut self, len: usize) -> (report: bool)
        requires
            old(self).wf(),
        ensures
            final(self).wf(),
            final(self).received() == counted(old(self).received(), len),
            report == (final(self).received() - old(self).reported() >= PROGRESS_STEP),
            final(self).reported() == if report {
                final(self).received()
            } else {
                old(self).reported()
            },
            final(self).received() - final(self).reported() < PROGRESS_STEP,
    {
        let len64: u64 = if len as u128 > u64::MAX as u128 { u64::MAX } else { len as u64 };
        self.downloaded = self.downloaded.saturating_add(len64);
        if self.downloaded - self.last_reported >= PROGRESS_STEP {
            self.last_reported = self.downloaded;
            true
        } else {
            false
        }
    }

    /// The progress to tell the front end.
    pub fn progress(&self, total_bytes: Option<u64>) -> (r: ModelDownloadProgress)
        ensures
            r.downloaded_bytes == self.received(),
            r.total_bytes == total_bytes,
    {
        ModelDownloadProgress { downloaded_bytes: self.downloaded, total_bytes }
    }

    /// Bytes received so far.
    pub fn downloaded(&self) -> (r: u64)
        ensures
            r == self.received(),
    {
        self.downloaded
    }
}

} // verus!
