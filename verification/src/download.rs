//! Progress of a model download: bytes counted as chunks arrive, and reports
//! made no more often than a fixed interval.

use vstd::prelude::*;

use crate::controller::{elapsed_between, elapsed_ns, DownloadJob};

verus! {

/// The least time, in nanoseconds, between two progress reports.
pub const PROGRESS_INTERVAL_NS: u64 = 100_000_000;

/// A progress report: how much of the model's file has been written.
#[derive(Debug)]
pub struct DownloadProgress {
    pub model_id: String,
    pub downloaded_bytes: u64,
    pub total_bytes: u64,
}

/// A progress report with its texts taken as characters.
pub struct ProgressView {
    pub model_id: Seq<char>,
    pub downloaded_bytes: u64,
    pub total_bytes: u64,
}

impl View for DownloadProgress {
    type V = ProgressView;

    open spec fn view(&self) -> ProgressView {
        ProgressView {
            model_id: self.model_id@,
            downloaded_bytes: self.downloaded_bytes,
            total_bytes: self.total_bytes,
        }
    }
}

/// Counts the bytes of a running download.
pub struct DownloadTracker {
    model_id: String,
    downloaded: u64,
    total: u64,
    last_report_ns: u64,
}

/// The contents of a `DownloadTracker`: the model, the bytes written so far,
/// the size the catalog gives, and when progress was last reported.
pub struct TrackerView {
    pub model_id: Seq<char>,
    pub downloaded: u64,
    pub total: u64,
    pub last_report_ns: u64,
}

impl View for DownloadTracker {
    type V = TrackerView;

    closed spec fn view(&self) -> TrackerView {
        TrackerView {
            model_id: self.model_id@,
            downloaded: self.downloaded,
            total: self.total,
            last_report_ns: self.last_report_ns,
        }
    }
}

/// A chunk of `bytes` written at time `now`: it is counted, and progress is
/// reported when at least the report interval has passed since the last
/// report.
pub open spec fn chunk_spec(t: TrackerView, bytes: u64, now: u64) -> (TrackerView, Option<
    ProgressView,
>) {
    let downloaded = (t.downloaded + bytes) as u64;
    if elapsed_ns(t.last_report_ns, now) >= PROGRESS_INTERVAL_NS {
        (
            TrackerView { downloaded, last_report_ns: now, ..t },
            Some(ProgressView { model_id: t.model_id, downloaded_bytes: downloaded, total_bytes: t.total }),
        )
    } else {
        (TrackerView { downloaded, ..t }, None)
    }
}

impl DownloadTracker {
    /// A download of `job` that begins at time `now_ns`, with nothing written.
    pub fn start(job: &DownloadJob, now_ns: u64) -> (r: DownloadTracker)
        ensures
            r@ == (TrackerView {
                model_id: job.model_id@,
                downloaded: 0,
                total: job.total_bytes,
                last_report_ns: now_ns,
            }),
    {
        DownloadTracker {
            model_id: job.model_id.clone(),
            downloaded: 0,
            total: job.total_bytes,
            last_report_ns: now_ns,
        }
    }

    /// The bytes written so far.
    pub fn downloaded(&self) -> (r: u64)
        ensures
            r == self@.downloaded,
    {
        self.downloaded
    }

    /// Counts a chunk of `bytes` written at time `now_ns` (see `chunk_spec`);
    /// the result is the progress to report, if any.
    pub fn record_chunk(&mut self, bytes: u64, now_ns: u64) -> (r: Option<DownloadProgress>)
        requires
            old(self)@.downloaded + bytes <= u64::MAX,
        ensures
            final(self)@ == chunk_spec(old(self)@, bytes, now_ns).0,
            match (r, chunk_spec(old(self)@, bytes, now_ns).1) {
                (Some(p), Some(v)) => p@ == v,
                (None, None) => true,
                _ => false,
            },
    {
        self.downloaded = self.downloaded + bytes;
        if elapsed_between(self.last_report_ns, now_ns) >= PROGRESS_INTERVAL_NS {
            self.last_report_ns = now_ns;
            Some(
                DownloadProgress {
                    model_id: self.model_id.clone(),
                    downloaded_bytes: self.downloaded,
                    total_bytes: self.total,
                },
            )
        } else {
            None
        }
    }

    /// The report made once the file is complete: all of the model's size.
    pub fn completion(&self) -> (r: DownloadProgress)
        ensures
            r@ == (ProgressView {
                model_id: self@.model_id,
                downloaded_bytes: self@.total,
                total_bytes: self@.total,
            }),
    {
        DownloadProgress {
            model_id: self.model_id.clone(),
            downloaded_bytes: self.total,
            total_bytes: self.total,
        }
    }
}

/// The name of the file that a download writes to before it is complete:
/// the model's file name followed by ".part".
pub fn part_file_name(filename: &str) -> (r: String)
    ensures
        r@ == filename@ + ".part"@,
{
    let mut name = String::from_str(filename);
    name.append(".part");
    name
}

/// Stops a download whose cancelling was asked for, with the error
/// "Download cancelled".
pub fn check_not_cancelled(cancel_requested: bool) -> (r: Result<(), String>)
    ensures
        !cancel_requested ==> r is Ok,
        cancel_requested ==> (r matches Err(e) && e@ == "Download cancelled"@),
{
    if cancel_requested {
        Err(String::from_str("Download cancelled"))
    } else {
        Ok(())
    }
}

} // verus!
