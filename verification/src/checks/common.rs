//! What the validators share: the outcome of a scan, and how an outcome
//! and a checksum become the report of a file.

use vstd::prelude::*;
use crate::checker::{FileReport, FileReportView, Stats};
use crate::sha256::{
    after_chunks, after_read, checksum_of, concat_bytes, hex_lower, law_checksum_covers_stream,
    sha256, HashingState, SharedHashingReader,
};
use crate::text::{file_name_of, one_string, path_file_name, texts};

verus! {

/// What a validator found in one file.
#[derive(Debug)]
pub struct CheckOutcome {
    pub stats: Option<Stats>,
    pub errors: Vec<String>,
    pub warnings: Vec<String>,
}

/// A [`CheckOutcome`] as plain text and numbers.
pub struct CheckOutcomeView {
    pub stats: Option<Stats>,
    pub errors: Seq<Seq<char>>,
    pub warnings: Seq<Seq<char>>,
}

impl View for CheckOutcome {
    type V = CheckOutcomeView;

    open spec fn view(&self) -> CheckOutcomeView {
        CheckOutcomeView {
            stats: self.stats,
            errors: texts(self.errors@),
            warnings: texts(self.warnings@),
        }
    }
}

impl Default for CheckOutcome {
    /// The outcome that holds nothing: no statistics, errors or warnings.
    fn default() -> (outcome: Self)
        ensures
            outcome@ == (CheckOutcomeView {
                stats: None,
                errors: Seq::empty(),
                warnings: Seq::empty(),
            }),
    {
        let outcome = CheckOutcome { stats: None, errors: Vec::new(), warnings: Vec::new() };
        assert(texts(outcome.errors@) =~= Seq::empty());
        assert(texts(outcome.warnings@) =~= Seq::empty());
        outcome
    }
}

/// A scan that was cut short because the decoder, or the byte source under
/// it, failed.
#[derive(Debug)]
pub struct ScanAbort {
    /// Names the record at which the scan failed, and the cause.
    pub message: String,
    /// The records that were decoded before the failure, if there were any.
    pub stats: Option<Stats>,
}

/// A [`ScanAbort`] as plain text and numbers.
pub struct ScanAbortView {
    pub message: Seq<char>,
    pub stats: Option<Stats>,
}

impl View for ScanAbort {
    type V = ScanAbortView;

    open spec fn view(&self) -> ScanAbortView {
        ScanAbortView { message: self.message@, stats: self.stats }
    }
}

/// The result of a scan as plain text and numbers.
pub open spec fn scan_view(scan: Result<CheckOutcome, ScanAbort>) -> Result<
    CheckOutcomeView,
    ScanAbortView,
> {
    match scan {
        Ok(outcome) => Ok(outcome@),
        Err(abort) => Err(abort@),
    }
}

/// The hashing state behind a handle, if the handle was given back.
pub open spec fn hasher_view(hasher: Option<SharedHashingReader>) -> Option<HashingState> {
    match hasher {
        Some(h) => Some(h@),
        None => None,
    }
}

/// The stage at which the byte stream of a file could not be set up.
#[derive(Debug, Copy, Clone, PartialEq, Eq, Structural)]
pub enum SetupError {
    /// The file could not be opened.
    Open,
    /// No decompressor could be put on the stream.
    Decompress,
}

/// The error that a file is reported with when its stream cannot be set up.
pub open spec fn setup_error_message(error: SetupError, path: Seq<char>) -> Seq<char> {
    match error {
        SetupError::Open => "Failed to open file for reading: "@ + path,
        SetupError::Decompress => "Failed to decompress file: "@ + path,
    }
}

/// The error held against a file whose hash is still held elsewhere when
/// its checksum is due.
pub open spec fn finalize_error_message() -> Seq<char> {
    "Failed to finalize checksum: hasher is still in use."@
}

/// The report of a file whose stream was set up.
///
/// An aborted scan leaves its error, the statistics of what was decoded
/// before it, and no checksum. Otherwise the outcome of the scan is
/// reported, with the checksum if the stream was read to its end. If the
/// handle of the hash was not given back, the file is reported with that
/// error in place of the outcome's own and without a checksum.
pub open spec fn file_report(
    path: Seq<char>,
    scan: Result<CheckOutcomeView, ScanAbortView>,
    hashing: Option<HashingState>,
) -> FileReportView {
    match scan {
        Err(abort) => FileReportView {
            path: path,
            stats: abort.stats,
            sha256: None,
            errors: seq![abort.message],
            warnings: Seq::empty(),
        },
        Ok(outcome) => match hashing {
            None => FileReportView {
                path: path,
                stats: outcome.stats,
                sha256: None,
                errors: seq![finalize_error_message()],
                warnings: outcome.warnings,
            },
            Some(state) => FileReportView {
                path: path,
                stats: outcome.stats,
                sha256: checksum_of(state),
                errors: outcome.errors,
                warnings: outcome.warnings,
            },
        },
    }
}

/// The report of a file whose stream could not be set up: the one error,
/// no statistics and no checksum.
pub fn setup_failure(path: &str, error: SetupError) -> (report: FileReport)
    ensures
        report@ == (FileReportView {
            path: path@,
            stats: None,
            sha256: None,
            errors: seq![setup_error_message(error, path@)],
            warnings: Seq::empty(),
        }),
{
    let mut message = match error {
        SetupError::Open => String::from_str("Failed to open file for reading: "),
        SetupError::Decompress => String::from_str("Failed to decompress file: "),
    };
    message.append(path);
    FileReport::new_with_error(path, message)
}

/// Turns the result of a scan and the handle of the file's hash into the
/// report of the file. `hasher` is `None` when the handle could not be
/// taken back because the stream still holds it.
pub fn check_file(
    path: &str,
    scan: Result<CheckOutcome, ScanAbort>,
    hasher: Option<SharedHashingReader>,
) -> (report: FileReport)
    ensures
        report@ == file_report(path@, scan_view(scan), hasher_view(hasher)),
{
    match scan {
        Err(abort) => {
            let report = FileReport::new(path, abort.stats, one_string(abort.message), Vec::new());
            assert(report@.warnings =~= Seq::empty());
            report
        },
        Ok(outcome) => match hasher {
            None => {
                let error = String::from_str(
                    "Failed to finalize checksum: hasher is still in use.",
                );
                FileReport::new(path, outcome.stats, one_string(error), outcome.warnings)
            },
            Some(reader) => {
                let checksum = reader.checksum();
                FileReport::new(
                    path,
                    outcome.stats,
                    outcome.errors,
                    outcome.warnings,
                ).with_sha256(checksum)
            },
        },
    }
}

/// A transform of the byte stream of a file.
#[derive(Debug, Copy, Clone, PartialEq, Eq, Structural)]
pub enum Stage {
    /// Feeds every byte to the hash of the file.
    Checksum,
    /// Reports the bytes read to the progress counters.
    Progress,
    /// Detects a compression and undoes it.
    Decompress,
}

/// How the stream of a file is set up.
#[derive(Debug)]
pub struct StreamPlan {
    /// What the progress display of the file shows while it is checked.
    pub message: String,
    /// The transforms to put on the file, the first of them next to it.
    pub stages: Vec<Stage>,
}

/// The transforms of a stream, the first of them next to the file. The
/// hash and the progress counters see the bytes as they are on disk:
/// decompression, where it is asked for, comes after them.
pub open spec fn pipeline_stages(decompress: bool) -> Seq<Stage> {
    if decompress {
        seq![Stage::Checksum, Stage::Progress, Stage::Decompress]
    } else {
        seq![Stage::Checksum, Stage::Progress]
    }
}

/// Plans the stream of the file at `path`.
pub fn setup_file_reader(path: &str, decompress: bool) -> (plan: StreamPlan)
    ensures
        plan.message@ == "~ CHECK "@ + (match file_name_of(path@) {
            Some(name) => name,
            None => Seq::empty(),
        }),
        plan.stages@ == pipeline_stages(decompress),
{
    let mut message = String::from_str("~ CHECK ");
    match path_file_name(path) {
        Some(name) => {
            message.append(name.as_str());
        },
        None => {
            assert(message@ =~= "~ CHECK "@ + Seq::<char>::empty());
        },
    }
    let mut stages: Vec<Stage> = Vec::new();
    stages.push(Stage::Checksum);
    stages.push(Stage::Progress);
    if decompress {
        stages.push(Stage::Decompress);
    }
    assert(stages@ =~= pipeline_stages(decompress));
    StreamPlan { message, stages }
}

/// A file whose scan was not cut short, and whose stream was read to its
/// end, is reported with the SHA-256 of all the bytes of the stream.
pub proof fn law_checksum_of_scanned_file(
    path: Seq<char>,
    outcome: CheckOutcomeView,
    chunks: Seq<Seq<u8>>,
    buf: Seq<u8>,
)
    requires
        buf.len() > 0,
    ensures
        file_report(
            path,
            Ok(outcome),
            Some(
                after_read(
                    after_chunks(HashingState { bytes: Seq::empty(), drained: false }, chunks),
                    buf,
                    Some(0nat),
                ),
            ),
        ).sha256 == Some(hex_lower(sha256(concat_bytes(chunks)))),
{
    law_checksum_covers_stream(chunks, buf);
}

/// A checksum is only ever reported of a scan that was not cut short and
/// of a stream that was read to its end, and it is the SHA-256 of the
/// bytes that the stream gave.
pub proof fn law_checksum_needs_drained_stream(
    path: Seq<char>,
    scan: Result<CheckOutcomeView, ScanAbortView>,
    hashing: Option<HashingState>,
)
    ensures
        file_report(path, scan, hashing).sha256 is Some ==> {
            &&& scan is Ok
            &&& hashing matches Some(state)
            &&& state.drained
            &&& file_report(path, scan, hashing).sha256 == Some(hex_lower(sha256(state.bytes)))
        },
{
}

} // verus!
