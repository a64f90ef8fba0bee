//! Resumable download of one resource.
//!
//! A [`DownloadTask`] keeps count of what has arrived and decides what
//! happens when the stream breaks. The program around this library issues
//! the HTTP requests and writes the file: it starts a task with the length
//! that the first response declares, writes each chunk at the end of the
//! destination and reports it, and reports when the stream breaks or ends.
//! On [`DownloadStep::Resume`] it asks again with the given `Range` header
//! and writes on at the end of the same file, which it does not truncate.
//!
//! What was written before an interruption is not compared with what a
//! resumed request returns.

use vstd::prelude::*;
use crate::text::{decimal, decimal_digits};

verus! {

/// Number of times that one download is resumed before it fails for good.
pub const DOWNLOAD_RETRIES: u32 = 20;

/// Why a download failed.
#[derive(Clone, Copy, Debug, PartialEq, Eq, Structural)]
pub enum DownloadError {
    /// The server did not declare the length of the resource.
    MissingLength,
    /// The stream broke again after every retry was used.
    DownloadExhausted,
}

/// What happens on the stream of a download.
#[derive(Clone, Copy, Debug, PartialEq, Eq, Structural)]
pub enum DownloadEvent {
    /// A chunk of this many bytes arrived and was written.
    Chunk(u64),
    /// The stream broke.
    Interrupted,
    /// The stream ended as the server meant it to.
    Closed,
}

/// The numbers of a download: bytes received, bytes declared, retries used.
#[derive(Clone, Copy, Debug, PartialEq, Eq, Structural)]
pub struct Progress {
    pub bytes_downloaded: u64,
    pub total_size: u64,
    pub retries: u32,
}

/// What the program does after an event.
#[derive(Clone, Copy, Debug, PartialEq, Eq, Structural)]
pub enum StepKind {
    /// Read on.
    Continue,
    /// Ask again for the bytes from `offset` on, and one retry is used.
    Resume { offset: u64 },
    /// The download is complete.
    Finished,
    /// The download has failed for good.
    Failed(DownloadError),
}

/// The sum of `downloaded` and `len`, as far as it can be counted.
pub open spec fn counted(downloaded: u64, len: u64) -> u64 {
    if downloaded + len > u64::MAX {
        u64::MAX
    } else {
        (downloaded + len) as u64
    }
}

/// What a break of the stream leads to: a retry from the bytes received
/// while retries are left, failure after that.
pub open spec fn after_break(p: Progress) -> (Progress, StepKind) {
    if p.retries < DOWNLOAD_RETRIES {
        (
            Progress { retries: (p.retries + 1) as u32, ..p },
            StepKind::Resume { offset: p.bytes_downloaded },
        )
    } else {
        (p, StepKind::Failed(DownloadError::DownloadExhausted))
    }
}

/// The numbers after `event`, and what the program does next.
///
/// A chunk is counted. A stream that ends with every declared byte received
/// completes the download. A stream that breaks, or ends short of the
/// declared length, is resumed from the bytes received so far, which stay as
/// they are.
pub open spec fn step(p: Progress, event: DownloadEvent) -> (Progress, StepKind) {
    match event {
        DownloadEvent::Chunk(len) => (
            Progress { bytes_downloaded: counted(p.bytes_downloaded, len), ..p },
            StepKind::Continue,
        ),
        DownloadEvent::Interrupted => after_break(p),
        DownloadEvent::Closed => if p.bytes_downloaded == p.total_size {
            (p, StepKind::Finished)
        } else {
            after_break(p)
        },
    }
}

/// The numbers after the events `events`, one after the other.
pub open spec fn run(p: Progress, events: Seq<DownloadEvent>) -> Progress
    decreases events.len(),
{
    if events.len() == 0 {
        p
    } else {
        step(run(p, events.drop_last()), events.last()).0
    }
}

/// Number of bytes that the chunks among `events` hold together: the length
/// of a destination file to which each chunk was appended.
pub open spec fn written(events: Seq<DownloadEvent>) -> nat
    decreases events.len(),
{
    if events.len() == 0 {
        0
    } else {
        written(events.drop_last()) + match events.last() {
            DownloadEvent::Chunk(len) => len as nat,
            _ => 0,
        }
    }
}

/// Number of events among `events` that a stream without breaks would not
/// have: interruptions, and ends short of the declared length.
pub open spec fn breaks(p: Progress, events: Seq<DownloadEvent>) -> nat
    decreases events.len(),
{
    if events.len() == 0 {
        0
    } else {
        breaks(p, events.drop_last()) + match step(run(p, events.drop_last()), events.last()).1 {
            StepKind::Resume { .. } => 1nat,
            StepKind::Failed(_) => 1nat,
            _ => 0nat,
        }
    }
}

/// The numbers of a download that has just started.
pub open spec fn fresh(total_size: u64) -> Progress {
    Progress { bytes_downloaded: 0, total_size, retries: 0 }
}

/// Through any events, a download counts exactly the bytes that were written
/// (as far as they can be counted), keeps the declared length, and has used
/// as many retries as the stream broke, up to the budget.
pub proof fn lemma_run(total_size: u64, events: Seq<DownloadEvent>)
    ensures
        run(fresh(total_size), events).total_size == total_size,
        run(fresh(total_size), events).bytes_downloaded == if written(events) > u64::MAX {
            u64::MAX as nat
        } else {
            written(events)
        },
        run(fresh(total_size), events).retries == if breaks(fresh(total_size), events)
            > DOWNLOAD_RETRIES {
            DOWNLOAD_RETRIES as nat
        } else {
            breaks(fresh(total_size), events)
        },
    decreases events.len(),
{
    if events.len() > 0 {
        lemma_run(total_size, events.drop_last());
    }
}

/// A download that was interrupted after `k` bytes asks again from byte `k`
/// on. It completes only when the bytes written are as many as were
/// declared, so the finished file has the declared length. And when the
/// stream breaks with every retry used it fails, and does not complete.
pub proof fn lemma_resume_and_completion(
    total_size: u64,
    events: Seq<DownloadEvent>,
    event: DownloadEvent,
)
    requires
        written(events) <= u64::MAX,
    ensures
        step(run(fresh(total_size), events), event).1 matches StepKind::Resume { offset }
            ==> offset == written(events) && breaks(fresh(total_size), events)
            < DOWNLOAD_RETRIES,
        step(run(fresh(total_size), events), event).1 is Finished ==> written(events)
            == total_size && event == DownloadEvent::Closed,
        step(run(fresh(total_size), events), event).1 is Failed ==> breaks(
            fresh(total_size),
            events,
        ) >= DOWNLOAD_RETRIES && !(event is Chunk),
        event == DownloadEvent::Interrupted && breaks(fresh(total_size), events)
            >= DOWNLOAD_RETRIES ==> step(run(fresh(total_size), events), event).1
            == StepKind::Failed(DownloadError::DownloadExhausted),
{
    lemma_run(total_size, events);
}

/// The value of the `Range` header that asks for the bytes from `offset`
/// on.
pub open spec fn range_from(offset: u64) -> Seq<char> {
    "bytes="@ + decimal_digits(offset as nat) + "-"@
}

/// The value of the `Range` header that asks for the bytes from `offset`
/// on.
pub fn range_header(offset: u64) -> (r: String)
    ensures
        r@ == range_from(offset),
{
    let mut header = "bytes=".to_owned();
    header.append(decimal(offset).as_str());
    header.append("-");
    header
}

/// What the program does after an event, with the header to send where it
/// asks again.
#[derive(Clone, Debug, PartialEq, Eq)]
pub enum DownloadStep {
    /// Read on.
    Continue,
    /// Ask again with the header `Range: range`, and write what comes at
    /// position `offset` of the destination, its end.
    Resume { range: String, offset: u64 },
    /// The download is complete; the destination is final.
    Finished,
    /// The download has failed for good; the destination holds what had
    /// arrived.
    Failed(DownloadError),
}

impl DownloadStep {
    /// The step without the header.
    pub open spec fn kind(self) -> StepKind {
        match self {
            DownloadStep::Continue => StepKind::Continue,
            DownloadStep::Resume { range, offset } => StepKind::Resume { offset },
            DownloadStep::Finished => StepKind::Finished,
            DownloadStep::Failed(e) => StepKind::Failed(e),
        }
    }
}

/// The download of one resource to one file.
#[derive(Clone, Debug, PartialEq, Eq)]
pub struct DownloadTask {
    pub url: String,
    pub destination: String,
    pub progress: Progress,
}

impl DownloadTask {
    /// Starts the download of `url` to `destination`, given the length that
    /// the response declares. Fails with `MissingLength` exactly when it
    /// declares none.
    pub fn start(url: String, destination: String, content_length: Option<u64>) -> (r: Result<
        DownloadTask,
        DownloadError,
    >)
        ensures
            match content_length {
                Some(total_size) => r matches Ok(task) && task.url == url && task.destination
                    == destination && task.progress == fresh(total_size),
                None => r == Err::<DownloadTask, DownloadError>(DownloadError::MissingLength),
            },
    {
        match content_length {
            Some(total_size) => Ok(
                DownloadTask {
                    url,
                    destination,
                    progress: Progress { bytes_downloaded: 0, total_size, retries: 0 },
                },
            ),
            None => Err(DownloadError::MissingLength),
        }
    }

    /// Whether every declared byte has been received.
    pub fn is_complete(&self) -> (r: bool)
        ensures
            r == (self.progress.bytes_downloaded == self.progress.total_size),
    {
        self.progress.bytes_downloaded == self.progress.total_size
    }

    /// Takes note of an event and says what to do next.
    pub fn handle(&mut self, event: DownloadEvent) -> (next: DownloadStep)
        ensures
            final(self).url == old(self).url,
            final(self).destination == old(self).destination,
            (final(self).progress, next.kind()) == step(old(self).progress, event),
            next matches DownloadStep::Resume { range, offset } ==> range@ == range_from(offset),
    {
        match event {
            DownloadEvent::Chunk(len) => {
                if len > u64::MAX - self.progress.bytes_downloaded {
                    self.progress.bytes_downloaded = u64::MAX;
                } else {
                    self.progress.bytes_downloaded = self.progress.bytes_downloaded + len;
                }
                DownloadStep::Continue
            },
            DownloadEvent::Interrupted => self.broken(),
            DownloadEvent::Closed => {
                if self.progress.bytes_downloaded == self.progress.total_size {
                    DownloadStep::Finished
                } else {
                    self.broken()
                }
            },
        }
    }

    /// Uses a retry where one is left, and fails where none is.
    fn broken(&mut self) -> (next: DownloadStep)
        ensures
            final(self).url == old(self).url,
            final(self).destination == old(self).destination,
            (final(self).progress, next.kind()) == after_break(old(self).progress),
            next matches DownloadStep::Resume { range, offset } ==> range@ == range_from(offset),
    {
        if self.progress.retries < DOWNLOAD_RETRIES {
            self.progress.retries = self.progress.retries + 1;
            DownloadStep::Resume {
                range: range_header(self.progress.bytes_downloaded),
                offset: self.progress.bytes_downloaded,
            }
        } else {
            DownloadStep::Failed(DownloadError::DownloadExhausted)
        }
    }
}

} // verus!
