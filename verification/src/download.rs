//! The download session: cumulative progress accounting for a streamed
//! transfer, classification of the response status, and the typed signals
//! a finished download hands back.
//!
//! The network and file I/O live in the surrounding application; it reports
//! each received chunk here, and this module keeps the byte counts, honours
//! cancellation between chunks, and decides which signal the session ends
//! with.

use vstd::prelude::*;
use crate::engine::WizardEvent;

verus! {

/// How a download can fail: the connection broke, the server answered with
/// a non-success status (carried along), or a received chunk could not be
/// written to the temporary file.
pub enum DownloadError {
    NetworkFailure,
    NonSuccessStatus(u16),
    WriteError,
}

/// What a finished download hands back: the location of the temporary file
/// holding the image, or a typed failure. The two cases are distinct at
/// this boundary even when a caller chooses to discard the signal.
pub enum DownloadSignal {
    Completed(String),
    Failed(DownloadError),
}

/// Progress of one download: bytes received so far (cumulative, not
/// per-chunk), and the declared total when the server supplied one.
pub struct DownloadProgress {
    pub bytes_done: u64,
    pub bytes_total: Option<u64>,
}

/// What the chunk loop does next after a chunk: report the new cumulative
/// progress, or stop because cancellation was requested.
pub enum ChunkAction {
    Report(u64, Option<u64>),
    Stopped,
}

/// Whether an HTTP status code counts as success.
pub open spec fn is_success_status(code: u16) -> bool {
    200 <= code < 300
}

/// Decides whether streaming may begin from the response's status code:
/// success admits the transfer, anything else aborts it with the status
/// carried in the failure.
pub fn check_response_status(code: u16) -> (r: Result<(), DownloadError>)
    ensures
        r is Ok <==> is_success_status(code),
        r is Err ==> r->Err_0 == DownloadError::NonSuccessStatus(code),
{
    if 200 <= code && code < 300 {
        Ok(())
    } else {
        Err(DownloadError::NonSuccessStatus(code))
    }
}

/// The cumulative byte count after the first `n` chunks of a session:
/// `record_chunk` adds each chunk's length to the count, so a session that
/// received `chunks` holds `bytes_after(chunks, n)` once `n` of them are
/// accounted.
pub open spec fn bytes_after(chunks: Seq<u64>, n: int) -> int
    decreases n,
{
    if n <= 0 {
        0
    } else {
        bytes_after(chunks, n - 1) + chunks[n - 1]
    }
}

/// Within one session the byte count never decreases: whatever the chunks,
/// the count after more of them is at least the count after fewer.
pub proof fn lemma_progress_monotone(chunks: Seq<u64>, m: int, n: int)
    requires
        0 <= m <= n <= chunks.len(),
    ensures
        bytes_after(chunks, m) <= bytes_after(chunks, n),
    decreases n - m,
{
    if m < n {
        lemma_progress_monotone(chunks, m, n - 1);
    }
}

/// One active download: its progress so far and whether cancellation has
/// been requested. Progress is reset only by starting a new session.
pub struct DownloadSession {
    pub progress: DownloadProgress,
    pub cancelled: bool,
}

impl DownloadSession {
    /// Opens a session: nothing received yet, the total read once from the
    /// response's declared length (absent when the server gave none).
    pub fn start(bytes_total: Option<u64>) -> (s: Self)
        ensures
            s.progress.bytes_done == 0,
            s.progress.bytes_total == bytes_total,
            !s.cancelled,
    {
        DownloadSession { progress: DownloadProgress { bytes_done: 0, bytes_total }, cancelled: false }
    }

    /// Requests cancellation; the chunk loop honours it at the next chunk
    /// boundary. Progress is left as it stands.
    pub fn cancel(&mut self)
        ensures
            final(self).cancelled,
            final(self).progress == old(self).progress,
    {
        self.cancelled = true;
    }

    /// Accounts one received chunk: the byte count grows by the chunk's
    /// length, and in particular never decreases; the declared total is
    /// untouched.
    pub fn record_chunk(&mut self, chunk_len: u64)
        requires
            old(self).progress.bytes_done + chunk_len <= u64::MAX,
        ensures
            final(self).progress.bytes_done == old(self).progress.bytes_done + chunk_len,
            final(self).progress.bytes_done >= old(self).progress.bytes_done,
            final(self).progress.bytes_total == old(self).progress.bytes_total,
            final(self).cancelled == old(self).cancelled,
    {
        self.progress.bytes_done = self.progress.bytes_done + chunk_len;
    }

    /// The event this session posts after a chunk: its cumulative progress,
    /// for the engine to fold into the `Downloading` step.
    pub fn progress_event(&self) -> (e: WizardEvent)
        ensures
            e == WizardEvent::DownloadProgressed(
                self.progress.bytes_done,
                self.progress.bytes_total,
            ),
    {
        WizardEvent::DownloadProgressed(self.progress.bytes_done, self.progress.bytes_total)
    }

    /// One turn of the chunk loop: if cancellation was requested the loop
    /// stops and the session is left as it stands; otherwise the chunk is
    /// accounted and its new cumulative progress is reported.
    pub fn on_chunk(&mut self, chunk_len: u64) -> (a: ChunkAction)
        requires
            old(self).progress.bytes_done + chunk_len <= u64::MAX,
        ensures
            old(self).cancelled ==> a == ChunkAction::Stopped && *final(self) == *old(self),
            !old(self).cancelled ==> {
                &&& a == ChunkAction::Report(
                    (old(self).progress.bytes_done + chunk_len) as u64,
                    old(self).progress.bytes_total,
                )
                &&& final(self).progress.bytes_done == old(self).progress.bytes_done + chunk_len
                &&& final(self).progress.bytes_total == old(self).progress.bytes_total
                &&& !final(self).cancelled
            },
    {
        if self.cancelled {
            ChunkAction::Stopped
        } else {
            self.record_chunk(chunk_len);
            ChunkAction::Report(self.progress.bytes_done, self.progress.bytes_total)
        }
    }
}

} // verus!
