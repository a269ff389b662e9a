//! The validator of files that only get a checksum: the stream is read to
//! its end and nothing of its content is looked at.

use vstd::prelude::*;
use crate::checker::FileReport;
use crate::checks::common::{
    check_file, file_report, hasher_view, scan_view, CheckOutcome, CheckOutcomeView, ScanAbort,
    ScanAbortView,
};
use crate::sha256::SharedHashingReader;

verus! {

/// A checksum-only job: one file.
#[derive(Debug)]
pub struct RawJob {
    pub path: String,
    /// Declared size in bytes, for progress totals only.
    pub size: u64,
}

/// The error of a stream that failed while it was read.
pub open spec fn read_error_message(cause: Seq<char>) -> Seq<char> {
    "Failed to read file: "@ + cause
}

/// The result of reading a stream to its end: `drained` is the number of
/// bytes that were read, or the cause for which reading failed. Success
/// leaves an outcome that holds nothing.
pub open spec fn scan_raw(drained: Result<u64, String>) -> Result<
    CheckOutcomeView,
    ScanAbortView,
> {
    match drained {
        Ok(_) => Ok(
            CheckOutcomeView { stats: None, errors: Seq::empty(), warnings: Seq::empty() },
        ),
        Err(cause) => Err(ScanAbortView { message: read_error_message(cause@), stats: None }),
    }
}

/// The outcome of reading a stream to its end.
pub fn scan_raw_stream(drained: &Result<u64, String>) -> (scan: Result<CheckOutcome, ScanAbort>)
    ensures
        scan_view(scan) == scan_raw(*drained),
{
    match drained {
        Ok(_) => Ok(CheckOutcome::default()),
        Err(cause) => {
            let mut message = String::from_str("Failed to read file: ");
            message.append(cause.as_str());
            Err(ScanAbort { message, stats: None })
        },
    }
}

/// Checks one file for its checksum alone. `drained` is what reading the
/// stream to its end gave; `hasher` is the handle of the file's hash as
/// it was given back afterwards, or `None` if the stream still holds it.
pub fn check_raw(
    path: &str,
    drained: &Result<u64, String>,
    hasher: Option<SharedHashingReader>,
) -> (report: FileReport)
    ensures
        report@ == file_report(path@, scan_raw(*drained), hasher_view(hasher)),
{
    check_file(path, scan_raw_stream(drained), hasher)
}

} // verus!
