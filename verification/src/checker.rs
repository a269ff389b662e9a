//! The result model: what is known of a file, a pair or a job once it has
//! been checked.

use vstd::prelude::*;
use crate::checks::bam::{check_bam, scan_bam, BamCheckJob, BamHeader, BamRecord};
use crate::checks::common::{
    check_file, file_report, hasher_view, setup_error_message, setup_failure, CheckOutcome,
    ScanAbort, ScanAbortView, SetupError,
};
use crate::checks::fastq::{
    check_single_fastq, faulty, lemma_pair_stop, pair_scan_view, process_paired_readers,
    scan_pair, scan_single, FastqRecord, PairAbort, PairAbortView, PairOutcomeView,
    PairedFastqJob, ReadLengthCheck, SingleFastqJob,
};
use crate::checks::raw::{check_raw, scan_raw, RawJob};
use crate::sha256::{HashingState, SharedHashingReader};
use crate::report::{jsonl, report_records_of, write_jsonl_report_entry};
use crate::text::{
    debug_quote, debug_quoted, decimal, decimal_string, file_name_of, one_string, opt_text,
    path_file_name, texts,
};

verus! {

/// Counts gathered while scanning one file.
#[derive(Debug, Copy, Clone, PartialEq, Eq, Structural)]
pub struct Stats {
    /// Records that were decoded.
    pub num_records: u64,
    /// Sequence length of the first record, for formats that have one.
    pub read_length: Option<usize>,
}

/// The outcome of checking one physical file.
#[derive(Debug, Clone)]
pub struct FileReport {
    pub path: String,
    pub stats: Option<Stats>,
    pub sha256: Option<String>,
    pub errors: Vec<String>,
    pub warnings: Vec<String>,
}

/// A [`FileReport`] as plain text and numbers.
pub struct FileReportView {
    pub path: Seq<char>,
    pub stats: Option<Stats>,
    pub sha256: Option<Seq<char>>,
    pub errors: Seq<Seq<char>>,
    pub warnings: Seq<Seq<char>>,
}

impl View for FileReport {
    type V = FileReportView;

    open spec fn view(&self) -> FileReportView {
        FileReportView {
            path: self.path@,
            stats: self.stats,
            sha256: opt_text(self.sha256),
            errors: texts(self.errors@),
            warnings: texts(self.warnings@),
        }
    }
}

impl FileReportView {
    /// A file is valid when nothing was held against it.
    pub open spec fn is_ok(self) -> bool {
        self.errors.len() == 0
    }
}

impl FileReport {
    /// A report without a checksum.
    pub fn new(path: &str, stats: Option<Stats>, errors: Vec<String>, warnings: Vec<String>) -> (report: Self)
        ensures
            report@ == (FileReportView {
                path: path@,
                stats: stats,
                sha256: None,
                errors: texts(errors@),
                warnings: texts(warnings@),
            }),
    {
        FileReport { path: String::from_str(path), stats, sha256: None, errors, warnings }
    }

    /// The report of a file of which nothing but one error is known.
    pub fn new_with_error(path: &str, error: String) -> (report: Self)
        ensures
            report@ == (FileReportView {
                path: path@,
                stats: None,
                sha256: None,
                errors: seq![error@],
                warnings: Seq::empty(),
            }),
    {
        let report = FileReport {
            path: String::from_str(path),
            stats: None,
            sha256: None,
            errors: one_string(error),
            warnings: Vec::new(),
        };
        assert(texts(report.warnings@) =~= Seq::empty());
        report
    }

    /// The same report with its checksum replaced.
    pub fn with_sha256(self, sha256: Option<String>) -> (report: Self)
        ensures
            report@ == (FileReportView { sha256: opt_text(sha256), ..self@ }),
    {
        let mut report = self;
        report.sha256 = sha256;
        report
    }

    /// Whether the file is valid: no error was recorded.
    pub fn is_ok(&self) -> (ok: bool)
        ensures
            ok == self@.is_ok(),
    {
        self.errors.len() == 0
    }
}

/// The outcome of checking the two files of a paired-read job.
#[derive(Debug, Clone)]
pub struct PairReport {
    pub fq1_report: FileReport,
    pub fq2_report: FileReport,
    /// Errors that belong to the pair rather than to either file.
    pub pair_errors: Vec<String>,
}

/// A [`PairReport`] as plain text and numbers.
pub struct PairReportView {
    pub fq1_report: FileReportView,
    pub fq2_report: FileReportView,
    pub pair_errors: Seq<Seq<char>>,
}

impl View for PairReport {
    type V = PairReportView;

    open spec fn view(&self) -> PairReportView {
        PairReportView {
            fq1_report: self.fq1_report@,
            fq2_report: self.fq2_report@,
            pair_errors: texts(self.pair_errors@),
        }
    }
}

impl PairReportView {
    /// A pair is valid when both files are and nothing was held against
    /// the pair itself.
    pub open spec fn is_ok(self) -> bool {
        self.fq1_report.is_ok() && self.fq2_report.is_ok() && self.pair_errors.len() == 0
    }
}

impl PairReport {
    /// Whether the pair is valid.
    pub fn is_ok(&self) -> (ok: bool)
        ensures
            ok == self@.is_ok(),
    {
        self.fq1_report.is_ok() && self.fq2_report.is_ok() && self.pair_errors.len() == 0
    }
}

/// The result of one job, by the kind of job.
#[derive(Debug)]
pub enum CheckResult {
    PairedFastq(PairReport),
    SingleFastq(FileReport),
    Bam(FileReport),
    Raw(FileReport),
}

/// A [`CheckResult`] as plain text and numbers.
pub enum CheckResultView {
    PairedFastq(PairReportView),
    SingleFastq(FileReportView),
    Bam(FileReportView),
    Raw(FileReportView),
}

impl View for CheckResult {
    type V = CheckResultView;

    open spec fn view(&self) -> CheckResultView {
        match self {
            CheckResult::PairedFastq(r) => CheckResultView::PairedFastq(r@),
            CheckResult::SingleFastq(r) => CheckResultView::SingleFastq(r@),
            CheckResult::Bam(r) => CheckResultView::Bam(r@),
            CheckResult::Raw(r) => CheckResultView::Raw(r@),
        }
    }
}

impl CheckResultView {
    /// Whether the job failed.
    pub open spec fn is_error(self) -> bool {
        match self {
            CheckResultView::PairedFastq(r) => !r.is_ok(),
            CheckResultView::SingleFastq(r) => !r.is_ok(),
            CheckResultView::Bam(r) => !r.is_ok(),
            CheckResultView::Raw(r) => !r.is_ok(),
        }
    }

    /// The path a job is named by: that of its file, or of the first mate
    /// of a pair.
    pub open spec fn primary_path(self) -> Seq<char> {
        match self {
            CheckResultView::PairedFastq(r) => r.fq1_report.path,
            CheckResultView::SingleFastq(r) => r.path,
            CheckResultView::Bam(r) => r.path,
            CheckResultView::Raw(r) => r.path,
        }
    }
}

impl CheckResult {
    /// Whether the job failed.
    pub fn is_error(&self) -> (failed: bool)
        ensures
            failed == self@.is_error(),
    {
        match self {
            CheckResult::PairedFastq(r) => !r.is_ok(),
            CheckResult::SingleFastq(r) => !r.is_ok(),
            CheckResult::Bam(r) => !r.is_ok(),
            CheckResult::Raw(r) => !r.is_ok(),
        }
    }

    /// The path the job is named by.
    pub fn primary_path(&self) -> (path: &str)
        ensures
            path@ == self@.primary_path(),
    {
        match self {
            CheckResult::PairedFastq(r) => r.fq1_report.path.as_str(),
            CheckResult::SingleFastq(r) => r.path.as_str(),
            CheckResult::Bam(r) => r.path.as_str(),
            CheckResult::Raw(r) => r.path.as_str(),
        }
    }
}

/// A unit of work: one file, or the two mates of a pair, with what the
/// format asks to know.
#[derive(Debug)]
pub enum Job {
    SingleFastq(SingleFastqJob),
    PairedFastq(PairedFastqJob),
    Bam(BamCheckJob),
    Raw(RawJob),
}

/// The length policy that a number on the command line stands for: a
/// negative number for none, zero for the length of the first record, a
/// positive number for that length.
pub fn read_length_check(value: i64) -> (check: ReadLengthCheck)
    requires
        value <= usize::MAX,
    ensures
        check == (if value < 0 {
            ReadLengthCheck::Skip
        } else if value == 0 {
            ReadLengthCheck::Auto
        } else {
            ReadLengthCheck::Fixed(value as usize)
        }),
{
    if value < 0 {
        ReadLengthCheck::Skip
    } else if value == 0 {
        ReadLengthCheck::Auto
    } else {
        ReadLengthCheck::Fixed(value as usize)
    }
}

/// The declared size of a job: that of its file, or of both mates.
pub open spec fn job_size(job: Job) -> nat {
    match job {
        Job::SingleFastq(j) => j.size as nat,
        Job::PairedFastq(j) => (j.fq1_size + j.fq2_size) as nat,
        Job::Bam(j) => j.size as nat,
        Job::Raw(j) => j.size as nat,
    }
}

/// The declared size of the first `upto` jobs of a list.
pub open spec fn total_size(jobs: Seq<Job>, upto: int) -> nat
    decreases upto,
{
    if upto <= 0 {
        0
    } else {
        total_size(jobs, upto - 1) + job_size(jobs[upto - 1])
    }
}

/// The jobs of a batch in the order in which they are declared by kind:
/// pairs, single files, containers, raw files.
pub open spec fn jobs_of(
    paired: Seq<PairedFastqJob>,
    single: Seq<SingleFastqJob>,
    bam: Seq<BamCheckJob>,
    raw: Seq<RawJob>,
) -> Seq<Job> {
    paired.map_values(|j: PairedFastqJob| Job::PairedFastq(j)) + single.map_values(
        |j: SingleFastqJob| Job::SingleFastq(j),
    ) + bam.map_values(|j: BamCheckJob| Job::Bam(j)) + raw.map_values(|j: RawJob| Job::Raw(j))
}

/// Gathers the jobs of a batch and the number of bytes they declare in
/// all. The total only serves the progress display; a batch that declares
/// more bytes than a counter can hold is not taken.
pub fn create_jobs(
    paired: Vec<PairedFastqJob>,
    single: Vec<SingleFastqJob>,
    bam: Vec<BamCheckJob>,
    raw: Vec<RawJob>,
) -> (res: (Vec<Job>, u64))
    requires
        total_size(
            jobs_of(paired@, single@, bam@, raw@),
            jobs_of(paired@, single@, bam@, raw@).len() as int,
        ) <= u64::MAX,
    ensures
        res.0@ == jobs_of(paired@, single@, bam@, raw@),
        res.1 == total_size(res.0@, res.0@.len() as int),
{
    let ghost all = jobs_of(paired@, single@, bam@, raw@);
    let mut jobs: Vec<Job> = Vec::new();
    let mut paired = paired;
    let mut single = single;
    let mut bam = bam;
    let mut raw = raw;
    let ghost paired_jobs = paired@.map_values(|j: PairedFastqJob| Job::PairedFastq(j));
    let ghost single_jobs = single@.map_values(|j: SingleFastqJob| Job::SingleFastq(j));
    let ghost bam_jobs = bam@.map_values(|j: BamCheckJob| Job::Bam(j));
    let ghost raw_jobs = raw@.map_values(|j: RawJob| Job::Raw(j));
    while paired.len() > 0
        invariant
            jobs@ + paired@.map_values(|j: PairedFastqJob| Job::PairedFastq(j))
                == paired_jobs,
        decreases paired.len(),
    {
        let ghost rest = paired@;
        let job = paired.remove(0);
        jobs.push(Job::PairedFastq(job));
        assert(jobs@ + paired@.map_values(|j: PairedFastqJob| Job::PairedFastq(j))
            =~= paired_jobs) by {
            assert(rest =~= seq![job] + paired@);
        }
    }
    assert(jobs@ =~= paired_jobs);
    while single.len() > 0
        invariant
            jobs@ + single@.map_values(|j: SingleFastqJob| Job::SingleFastq(j))
                == paired_jobs + single_jobs,
        decreases single.len(),
    {
        let ghost rest = single@;
        let job = single.remove(0);
        jobs.push(Job::SingleFastq(job));
        assert(jobs@ + single@.map_values(|j: SingleFastqJob| Job::SingleFastq(j))
            =~= paired_jobs + single_jobs) by {
            assert(rest =~= seq![job] + single@);
        }
    }
    assert(jobs@ =~= paired_jobs + single_jobs);
    while bam.len() > 0
        invariant
            jobs@ + bam@.map_values(|j: BamCheckJob| Job::Bam(j)) == paired_jobs
                + single_jobs + bam_jobs,
        decreases bam.len(),
    {
        let ghost rest = bam@;
        let job = bam.remove(0);
        jobs.push(Job::Bam(job));
        assert(jobs@ + bam@.map_values(|j: BamCheckJob| Job::Bam(j)) =~= paired_jobs
            + single_jobs + bam_jobs) by {
            assert(rest =~= seq![job] + bam@);
        }
    }
    assert(jobs@ =~= paired_jobs + single_jobs + bam_jobs);
    while raw.len() > 0
        invariant
            jobs@ + raw@.map_values(|j: RawJob| Job::Raw(j)) == paired_jobs
                + single_jobs + bam_jobs + raw_jobs,
        decreases raw.len(),
    {
        let ghost rest = raw@;
        let job = raw.remove(0);
        jobs.push(Job::Raw(job));
        assert(jobs@ + raw@.map_values(|j: RawJob| Job::Raw(j)) =~= paired_jobs
            + single_jobs + bam_jobs + raw_jobs) by {
            assert(rest =~= seq![job] + raw@);
        }
    }
    assert(jobs@ =~= all);
    let mut total: u64 = 0;
    let mut i: usize = 0;
    while i < jobs.len()
        invariant
            i <= jobs.len(),
            total == total_size(jobs@, i as int),
            total_size(jobs@, jobs@.len() as int) <= u64::MAX,
        decreases jobs.len() - i,
    {
        proof {
            lemma_total_size_grows(jobs@, i as int + 1, jobs@.len() as int);
        }
        let size = match &jobs[i] {
            Job::SingleFastq(j) => j.size,
            Job::PairedFastq(j) => j.fq1_size + j.fq2_size,
            Job::Bam(j) => j.size,
            Job::Raw(j) => j.size,
        };
        total = total + size;
        i += 1;
    }
    (jobs, total)
}

/// The declared size of a longer run of jobs is no smaller.
pub proof fn lemma_total_size_grows(jobs: Seq<Job>, fewer: int, more: int)
    requires
        fewer <= more,
    ensures
        total_size(jobs, fewer) <= total_size(jobs, more),
    decreases more - fewer,
{
    if fewer < more {
        lemma_total_size_grows(jobs, fewer, more - 1);
    }
}

/// The pair-level error of a walk that a decoder cut short.
pub open spec fn pair_parse_error_message() -> Seq<char> {
    "Parsing error during paired fastq check."@
}

/// The error of a mate that was not looked at because the stream of the
/// other mate, named `mate` and found at `path`, could not be set up.
pub open spec fn mate_aborted_message(mate: Seq<char>, path: Seq<char>) -> Seq<char> {
    mate + " ("@ + debug_quoted(path) + ") failed to parse; check aborted."@
}

/// The report of a file of which only one error is known.
pub open spec fn error_report(path: Seq<char>, error: Seq<char>) -> FileReportView {
    FileReportView {
        path: path,
        stats: None,
        sha256: None,
        errors: seq![error],
        warnings: Seq::empty(),
    }
}

/// The report of a pair whose streams were both set up. A walk that was
/// cut short leaves its error with both mates, with the statistics of
/// what was decoded of each, and an error with the pair. Otherwise each
/// mate is reported by its own outcome and hash, and the pair with the
/// errors of the walk.
pub open spec fn pair_report_of(
    fq1_path: Seq<char>,
    fq2_path: Seq<char>,
    scan: Result<PairOutcomeView, PairAbortView>,
    hashing1: Option<HashingState>,
    hashing2: Option<HashingState>,
) -> PairReportView {
    match scan {
        Err(abort) => PairReportView {
            fq1_report: file_report(
                fq1_path,
                Err(ScanAbortView { message: abort.message, stats: abort.fq1_stats }),
                hashing1,
            ),
            fq2_report: file_report(
                fq2_path,
                Err(ScanAbortView { message: abort.message, stats: abort.fq2_stats }),
                hashing2,
            ),
            pair_errors: seq![pair_parse_error_message()],
        },
        Ok(outcome) => PairReportView {
            fq1_report: file_report(fq1_path, Ok(outcome.fq1), hashing1),
            fq2_report: file_report(fq2_path, Ok(outcome.fq2), hashing2),
            pair_errors: outcome.pair_errors,
        },
    }
}

/// Turns the result of a walk over a pair, and the handles of the hashes
/// of its mates, into the report of the pair.
pub fn pair_report(
    fq1_path: &str,
    fq2_path: &str,
    scan: Result<(CheckOutcome, CheckOutcome, Vec<String>), PairAbort>,
    hasher1: Option<SharedHashingReader>,
    hasher2: Option<SharedHashingReader>,
) -> (report: PairReport)
    ensures
        report@ == pair_report_of(
            fq1_path@,
            fq2_path@,
            pair_scan_view(scan),
            hasher_view(hasher1),
            hasher_view(hasher2),
        ),
{
    match scan {
        Err(abort) => {
            let message2 = abort.message.clone();
            let abort1 = ScanAbort { message: abort.message, stats: abort.fq1_stats };
            let abort2 = ScanAbort { message: message2, stats: abort.fq2_stats };
            PairReport {
                fq1_report: check_file(fq1_path, Err(abort1), hasher1),
                fq2_report: check_file(fq2_path, Err(abort2), hasher2),
                pair_errors: one_string(
                    String::from_str("Parsing error during paired fastq check."),
                ),
            }
        },
        Ok((outcome1, outcome2, pair_errors)) => PairReport {
            fq1_report: check_file(fq1_path, Ok(outcome1), hasher1),
            fq2_report: check_file(fq2_path, Ok(outcome2), hasher2),
            pair_errors,
        },
    }
}

/// A mate without a decodable record is reported as an error and without
/// statistics, whatever the other mate holds and whatever became of the
/// hashes.
pub proof fn law_mate_without_record_is_error(
    fq1_length_check: ReadLengthCheck,
    fq2_length_check: ReadLengthCheck,
    first: Seq<Result<FastqRecord, String>>,
    second: Seq<Result<FastqRecord, String>>,
    fq1_path: Seq<char>,
    fq2_path: Seq<char>,
    hashing1: Option<HashingState>,
    hashing2: Option<HashingState>,
)
    ensures
        ({
            let report = pair_report_of(
                fq1_path,
                fq2_path,
                scan_pair(fq1_length_check, fq2_length_check, first, second),
                hashing1,
                hashing2,
            );
            &&& first.len() == 0 || first[0] is Err ==> !report.fq1_report.is_ok()
                && report.fq1_report.stats is None
            &&& second.len() == 0 || second[0] is Err ==> !report.fq2_report.is_ok()
                && report.fq2_report.stats is None
        }),
{
    if first.len() == 0 || first[0] is Err || second.len() == 0 || second[0] is Err {
        if first.len() > 0 && first[0] is Err {
            assert(faulty(fq1_length_check, first, 0));
        }
        if second.len() > 0 && second[0] is Err {
            assert(faulty(fq2_length_check, second, 0));
        }
        lemma_pair_stop(fq1_length_check, fq2_length_check, first, second, 0);
    }
}

/// Which of the two streams of a pair could not be set up.
#[derive(Debug, Copy, Clone, PartialEq, Eq, Structural)]
pub enum PairSetupFailure {
    First(SetupError),
    Second(SetupError),
    Both(SetupError, SetupError),
}

/// The report of a pair of which a stream could not be set up. The mate
/// whose stream failed is reported with that error. A mate whose stream
/// was set up is not looked at, and is reported with an error that names
/// the other. The pair itself has no error.
pub open spec fn pair_setup_failure_of(
    fq1_path: Seq<char>,
    fq2_path: Seq<char>,
    failure: PairSetupFailure,
) -> PairReportView {
    PairReportView {
        fq1_report: error_report(
            fq1_path,
            match failure {
                PairSetupFailure::First(e) | PairSetupFailure::Both(e, _) => setup_error_message(
                    e,
                    fq1_path,
                ),
                PairSetupFailure::Second(_) => mate_aborted_message("R2"@, fq2_path),
            },
        ),
        fq2_report: error_report(
            fq2_path,
            match failure {
                PairSetupFailure::Second(e) | PairSetupFailure::Both(_, e) => setup_error_message(
                    e,
                    fq2_path,
                ),
                PairSetupFailure::First(_) => mate_aborted_message("R1"@, fq1_path),
            },
        ),
        pair_errors: Seq::empty(),
    }
}

fn mate_aborted(mate: &str, path: &str) -> (message: String)
    ensures
        message@ == mate_aborted_message(mate@, path@),
{
    let mut message = String::from_str(mate);
    message.append(" (");
    message.append(debug_quote(path).as_str());
    message.append(") failed to parse; check aborted.");
    message
}

/// The report of a pair of which a stream could not be set up.
pub fn pair_setup_failure(fq1_path: &str, fq2_path: &str, failure: PairSetupFailure) -> (report:
    PairReport)
    ensures
        report@ == pair_setup_failure_of(fq1_path@, fq2_path@, failure),
{
    let fq1_report = match failure {
        PairSetupFailure::First(e) => setup_failure(fq1_path, e),
        PairSetupFailure::Both(e, _) => setup_failure(fq1_path, e),
        PairSetupFailure::Second(_) => FileReport::new_with_error(
            fq1_path,
            mate_aborted("R2", fq2_path),
        ),
    };
    let fq2_report = match failure {
        PairSetupFailure::Second(e) => setup_failure(fq2_path, e),
        PairSetupFailure::Both(_, e) => setup_failure(fq2_path, e),
        PairSetupFailure::First(_) => FileReport::new_with_error(
            fq2_path,
            mate_aborted("R1", fq1_path),
        ),
    };
    let report = PairReport { fq1_report, fq2_report, pair_errors: Vec::new() };
    assert(texts(report.pair_errors@) =~= Seq::empty());
    report
}

/// The stream of a short-read file as its validator meets it: the records
/// that the decoder yields, and the handle of the file's hash as it is
/// given back once the stream is let go (`None` if it is not).
pub struct FastqStream {
    pub records: Vec<Result<FastqRecord, String>>,
    pub hasher: Option<SharedHashingReader>,
}

/// The stream of a container as its validator meets it: what reading the
/// header gives, the records that the decoder yields, and the handle of
/// the file's hash.
pub struct BamStream {
    pub header: Result<BamHeader, String>,
    pub records: Vec<Result<BamRecord, String>>,
    pub hasher: Option<SharedHashingReader>,
}

/// The stream of a raw file: what reading it to its end gives, the number
/// of bytes or the cause of a failure, and the handle of the file's hash.
pub struct RawStream {
    pub drained: Result<u64, String>,
    pub hasher: Option<SharedHashingReader>,
}

/// A job together with what setting up and reading its files gives.
pub enum JobRun {
    SingleFastq(SingleFastqJob, Result<FastqStream, SetupError>),
    PairedFastq(PairedFastqJob, Result<FastqStream, SetupError>, Result<FastqStream, SetupError>),
    Bam(BamCheckJob, Result<BamStream, SetupError>),
    Raw(RawJob, Result<RawStream, SetupError>),
}

/// The result of one job. A file whose stream could not be set up is
/// reported with that error alone; any other file by what its validator
/// finds and by its hash.
#[verifier::opaque]
pub open spec fn job_result(run: JobRun) -> CheckResultView {
    match run {
        JobRun::SingleFastq(job, Err(e)) => CheckResultView::SingleFastq(
            error_report(job.path@, setup_error_message(e, job.path@)),
        ),
        JobRun::SingleFastq(job, Ok(stream)) => CheckResultView::SingleFastq(
            file_report(
                job.path@,
                scan_single(job.length_check, stream.records@, "record"@),
                hasher_view(stream.hasher),
            ),
        ),
        JobRun::PairedFastq(job, Ok(fq1), Ok(fq2)) => CheckResultView::PairedFastq(
            pair_report_of(
                job.fq1_path@,
                job.fq2_path@,
                scan_pair(
                    job.fq1_length_check,
                    job.fq2_length_check,
                    fq1.records@,
                    fq2.records@,
                ),
                hasher_view(fq1.hasher),
                hasher_view(fq2.hasher),
            ),
        ),
        JobRun::PairedFastq(job, Err(e1), Ok(_)) => CheckResultView::PairedFastq(
            pair_setup_failure_of(job.fq1_path@, job.fq2_path@, PairSetupFailure::First(e1)),
        ),
        JobRun::PairedFastq(job, Ok(_), Err(e2)) => CheckResultView::PairedFastq(
            pair_setup_failure_of(job.fq1_path@, job.fq2_path@, PairSetupFailure::Second(e2)),
        ),
        JobRun::PairedFastq(job, Err(e1), Err(e2)) => CheckResultView::PairedFastq(
            pair_setup_failure_of(job.fq1_path@, job.fq2_path@, PairSetupFailure::Both(e1, e2)),
        ),
        JobRun::Bam(job, Err(e)) => CheckResultView::Bam(
            error_report(job.path@, setup_error_message(e, job.path@)),
        ),
        JobRun::Bam(job, Ok(stream)) => CheckResultView::Bam(
            file_report(
                job.path@,
                scan_bam(stream.header, stream.records@),
                hasher_view(stream.hasher),
            ),
        ),
        JobRun::Raw(job, Err(e)) => CheckResultView::Raw(
            error_report(job.path@, setup_error_message(e, job.path@)),
        ),
        JobRun::Raw(job, Ok(stream)) => CheckResultView::Raw(
            file_report(job.path@, scan_raw(stream.drained), hasher_view(stream.hasher)),
        ),
    }
}

/// Runs one job on what its files give.
pub fn process_job(run: JobRun) -> (result: CheckResult)
    ensures
        result@ == job_result(run),
{
    reveal(job_result);
    match run {
        JobRun::SingleFastq(job, Err(e)) => CheckResult::SingleFastq(
            setup_failure(job.path.as_str(), e),
        ),
        JobRun::SingleFastq(job, Ok(stream)) => CheckResult::SingleFastq(
            check_single_fastq(
                job.path.as_str(),
                job.length_check,
                &stream.records,
                stream.hasher,
            ),
        ),
        JobRun::PairedFastq(job, Ok(fq1), Ok(fq2)) => {
            let scan = process_paired_readers(
                fq1.records,
                fq2.records,
                job.fq1_length_check,
                job.fq2_length_check,
            );
            CheckResult::PairedFastq(
                pair_report(
                    job.fq1_path.as_str(),
                    job.fq2_path.as_str(),
                    scan,
                    fq1.hasher,
                    fq2.hasher,
                ),
            )
        },
        JobRun::PairedFastq(job, Err(e1), Ok(_)) => CheckResult::PairedFastq(
            pair_setup_failure(
                job.fq1_path.as_str(),
                job.fq2_path.as_str(),
                PairSetupFailure::First(e1),
            ),
        ),
        JobRun::PairedFastq(job, Ok(_), Err(e2)) => CheckResult::PairedFastq(
            pair_setup_failure(
                job.fq1_path.as_str(),
                job.fq2_path.as_str(),
                PairSetupFailure::Second(e2),
            ),
        ),
        JobRun::PairedFastq(job, Err(e1), Err(e2)) => CheckResult::PairedFastq(
            pair_setup_failure(
                job.fq1_path.as_str(),
                job.fq2_path.as_str(),
                PairSetupFailure::Both(e1, e2),
            ),
        ),
        JobRun::Bam(job, Err(e)) => CheckResult::Bam(setup_failure(job.path.as_str(), e)),
        JobRun::Bam(job, Ok(stream)) => CheckResult::Bam(
            check_bam(job.path.as_str(), &stream.header, &stream.records, stream.hasher),
        ),
        JobRun::Raw(job, Err(e)) => CheckResult::Raw(setup_failure(job.path.as_str(), e)),
        JobRun::Raw(job, Ok(stream)) => CheckResult::Raw(
            check_raw(job.path.as_str(), &stream.drained, stream.hasher),
        ),
    }
}

/// Why a batch stopped before all its jobs were done.
#[derive(Debug)]
pub enum StopReason {
    /// Under fail-fast, the first job that failed.
    Error(CheckResult),
    /// The cancellation signal was seen.
    Interrupted,
}

/// A [`StopReason`] as plain text and numbers.
pub enum StopReasonView {
    Error(CheckResultView),
    Interrupted,
}

/// The early end of a batch.
#[derive(Debug)]
pub struct EarlyExitError(pub StopReason);

impl View for EarlyExitError {
    type V = StopReasonView;

    open spec fn view(&self) -> StopReasonView {
        match self.0 {
            StopReason::Error(result) => StopReasonView::Error(result@),
            StopReason::Interrupted => StopReasonView::Interrupted,
        }
    }
}

impl EarlyExitError {
    /// What the early end is announced with.
    pub fn message(&self) -> (text: String)
        ensures
            text@ == (match self@ {
                StopReasonView::Error(_) => "A validation error occurred, exiting."@,
                StopReasonView::Interrupted => "Operation was interrupted by the user."@,
            }),
    {
        match &self.0 {
            StopReason::Error(_) => String::from_str("A validation error occurred, exiting."),
            StopReason::Interrupted => String::from_str("Operation was interrupted by the user."),
        }
    }
}

/// How a batch that ran through stands at its end.
#[derive(Debug, Copy, Clone, PartialEq, Eq, Structural)]
pub enum BatchStatus {
    /// Every job that ran passed.
    Passed,
    /// This many jobs failed.
    Failed(usize),
    /// The cancellation signal was seen.
    Cancelled,
}

/// The status of a batch that ran through: cancellation comes before
/// failures, and failures are counted.
pub open spec fn batch_status_of(cancelled: bool, num_failed: nat) -> BatchStatus {
    if cancelled {
        BatchStatus::Cancelled
    } else if num_failed > 0 {
        BatchStatus::Failed(num_failed as usize)
    } else {
        BatchStatus::Passed
    }
}

/// The status of a batch that ran through, from the cancellation signal
/// and the tally of failed jobs.
pub fn batch_status(cancelled: bool, num_failed: usize) -> (status: BatchStatus)
    ensures
        status == batch_status_of(cancelled, num_failed as nat),
{
    if cancelled {
        BatchStatus::Cancelled
    } else if num_failed > 0 {
        BatchStatus::Failed(num_failed)
    } else {
        BatchStatus::Passed
    }
}

/// What the overall progress display ends with.
pub open spec fn batch_status_message(status: BatchStatus) -> Seq<char> {
    match status {
        BatchStatus::Passed => "✓ All checks passed!"@,
        BatchStatus::Failed(n) => "✗ Processing complete. "@ + decimal(n as nat)
            + " pairs/files failed."@,
        BatchStatus::Cancelled => "✗ Operation cancelled by user."@,
    }
}

impl BatchStatus {
    /// What the overall progress display ends with.
    pub fn message(&self) -> (text: String)
        ensures
            text@ == batch_status_message(*self),
    {
        match self {
            BatchStatus::Passed => String::from_str("✓ All checks passed!"),
            BatchStatus::Failed(n) => {
                let mut text = String::from_str("✗ Processing complete. ");
                text.append(decimal_string(*n as u64).as_str());
                text.append(" pairs/files failed.");
                text
            },
            BatchStatus::Cancelled => String::from_str("✗ Operation cancelled by user."),
        }
    }
}

/// Decides, before a job begins, whether it is run. `shutdown` is what
/// the cancellation signal reads at that moment. Without the signal the
/// job runs. With it, a batch that continues on errors leaves the job
/// out, and a fail-fast batch ends.
pub fn before_job(continue_on_error: bool, shutdown: bool) -> (res: Result<bool, EarlyExitError>)
    ensures
        match res {
            Ok(run) => run == !shutdown && (continue_on_error || !shutdown),
            Err(stop) => shutdown && !continue_on_error && stop@ is Interrupted,
        },
{
    if !shutdown {
        Ok(true)
    } else if continue_on_error {
        Ok(false)
    } else {
        Err(EarlyExitError(StopReason::Interrupted))
    }
}

/// Decides, once a job is done and its lines are written, how the batch
/// goes on. A batch that continues on errors counts a failed job and
/// goes on. A fail-fast batch ends with the first failed job.
pub fn after_job(continue_on_error: bool, result: CheckResult, num_failed: &mut usize) -> (res:
    Result<(), EarlyExitError>)
    requires
        *old(num_failed) < usize::MAX,
    ensures
        match res {
            Ok(_) => !result@.is_error() || continue_on_error,
            Err(stop) => result@.is_error() && !continue_on_error && stop@
                == StopReasonView::Error(result@),
        },
        *final(num_failed) == (if continue_on_error && result@.is_error() {
            *old(num_failed) + 1
        } else {
            *old(num_failed) as int
        }),
{
    if !result.is_error() {
        Ok(())
    } else if continue_on_error {
        *num_failed = *num_failed + 1;
        Ok(())
    } else {
        Err(EarlyExitError(StopReason::Error(result)))
    }
}

/// Whether the cancellation signal reads set at a poll, if it is set from
/// the poll `shutdown_from` on. The polls before the jobs are numbered
/// from 0, and the poll at the end of a batch has the number of its jobs.
pub open spec fn cancelled_at(shutdown_from: Option<usize>, poll: int) -> bool {
    shutdown_from matches Some(k) && k <= poll
}

/// How many jobs begin before the cancellation signal is seen.
pub open spec fn jobs_started(runs: Seq<JobRun>, shutdown_from: Option<usize>) -> int {
    match shutdown_from {
        Some(k) => if k < runs.len() {
            k as int
        } else {
            runs.len() as int
        },
        None => runs.len() as int,
    }
}

/// The lines that the first `upto` jobs leave in the report.
pub open spec fn batch_lines(runs: Seq<JobRun>, upto: int) -> Seq<char>
    decreases upto,
{
    if upto <= 0 {
        Seq::empty()
    } else {
        batch_lines(runs, upto - 1) + jsonl(report_records_of(job_result(runs[upto - 1])))
    }
}

/// How many of the first `upto` jobs fail.
pub open spec fn failures(runs: Seq<JobRun>, upto: int) -> nat
    decreases upto,
{
    if upto <= 0 {
        0
    } else if job_result(runs[upto - 1]).is_error() {
        failures(runs, upto - 1) + 1
    } else {
        failures(runs, upto - 1)
    }
}

/// The index of the first job at or after `from` that fails, or the
/// number of jobs if none does.
pub open spec fn first_failure(runs: Seq<JobRun>, from: int) -> int
    decreases runs.len() - from,
{
    if from >= runs.len() {
        runs.len() as int
    } else if job_result(runs[from]).is_error() {
        from
    } else {
        first_failure(runs, from + 1)
    }
}

/// How a batch ends. `runs` are the jobs in the order in which they are
/// done.
///
/// A batch that continues on errors runs every job that begins before
/// the cancellation signal is seen, and ends with the status that the
/// signal and the tally of failed jobs give. A fail-fast batch ends with
/// the first failed job, or with the signal if that is seen first; if
/// neither happens it ran through.
pub open spec fn batch_outcome(
    runs: Seq<JobRun>,
    continue_on_error: bool,
    shutdown_from: Option<usize>,
) -> Result<BatchStatus, StopReasonView> {
    let started = jobs_started(runs, shutdown_from);
    let failed = first_failure(runs, 0);
    if continue_on_error {
        Ok(batch_status_of(cancelled_at(shutdown_from, runs.len() as int), failures(runs, started)))
    } else if failed < started {
        Err(StopReasonView::Error(job_result(runs[failed])))
    } else if started < runs.len() {
        Err(StopReasonView::Interrupted)
    } else {
        Ok(batch_status_of(cancelled_at(shutdown_from, runs.len() as int), 0))
    }
}

/// How many jobs of a batch are done, and leave their lines in the
/// report, before the batch ends.
pub open spec fn jobs_done(
    runs: Seq<JobRun>,
    continue_on_error: bool,
    shutdown_from: Option<usize>,
) -> int {
    let started = jobs_started(runs, shutdown_from);
    let failed = first_failure(runs, 0);
    if continue_on_error || failed >= started {
        started
    } else {
        failed + 1
    }
}

/// The end of a batch as plain text and numbers.
pub open spec fn batch_view(res: Result<BatchStatus, EarlyExitError>) -> Result<
    BatchStatus,
    StopReasonView,
> {
    match res {
        Ok(status) => Ok(status),
        Err(stop) => Err(stop@),
    }
}

/// Where the first failed job lies.
pub proof fn lemma_first_failure(runs: Seq<JobRun>, from: int)
    requires
        0 <= from <= runs.len(),
    ensures
        from <= first_failure(runs, from) <= runs.len(),
        forall|i: int| from <= i < first_failure(runs, from) ==> !job_result(runs[i]).is_error(),
        first_failure(runs, from) < runs.len() ==> job_result(
            runs[first_failure(runs, from)],
        ).is_error(),
    decreases runs.len() - from,
{
    if from < runs.len() && !job_result(runs[from]).is_error() {
        lemma_first_failure(runs, from + 1);
    }
}

/// No more jobs fail than there are, and none fails before the first
/// that does.
pub proof fn lemma_failures(runs: Seq<JobRun>, upto: int)
    requires
        0 <= upto <= runs.len(),
    ensures
        failures(runs, upto) <= upto,
        (forall|i: int| 0 <= i < upto ==> !job_result(runs[i]).is_error()) ==> failures(
            runs,
            upto,
        ) == 0,
        failures(runs, upto) == 0 ==> forall|i: int|
            0 <= i < upto ==> !job_result(runs[i]).is_error(),
    decreases upto,
{
    if upto > 0 {
        lemma_failures(runs, upto - 1);
    }
}

/// A batch that ends at job `i` because the cancellation signal is seen
/// there.
pub proof fn lemma_batch_cancelled(
    runs: Seq<JobRun>,
    continue_on_error: bool,
    shutdown_from: Option<usize>,
    i: int,
)
    requires
        0 <= i < runs.len(),
        shutdown_from == Some(i as usize),
        i <= usize::MAX,
        !continue_on_error ==> forall|j: int| 0 <= j < i ==> !job_result(runs[j]).is_error(),
    ensures
        jobs_done(runs, continue_on_error, shutdown_from) == i,
        batch_outcome(runs, continue_on_error, shutdown_from) == (if continue_on_error {
            Ok::<BatchStatus, StopReasonView>(batch_status_of(true, failures(runs, i)))
        } else {
            Err::<BatchStatus, StopReasonView>(StopReasonView::Interrupted)
        }),
{
    lemma_first_failure(runs, 0);
}

/// A fail-fast batch that ends at job `i` because the job fails.
pub proof fn lemma_batch_failed(runs: Seq<JobRun>, shutdown_from: Option<usize>, i: int)
    requires
        0 <= i < runs.len(),
        shutdown_from matches Some(k) ==> k > i,
        forall|j: int| 0 <= j < i ==> !job_result(runs[j]).is_error(),
        job_result(runs[i]).is_error(),
    ensures
        jobs_done(runs, false, shutdown_from) == i + 1,
        batch_outcome(runs, false, shutdown_from) == Err::<BatchStatus, StopReasonView>(
            StopReasonView::Error(job_result(runs[i])),
        ),
{
    lemma_first_failure(runs, 0);
}

/// A batch that runs through all its jobs.
pub proof fn lemma_batch_ran_through(
    runs: Seq<JobRun>,
    continue_on_error: bool,
    shutdown_from: Option<usize>,
)
    requires
        shutdown_from matches Some(k) ==> k >= runs.len(),
        !continue_on_error ==> forall|j: int|
            0 <= j < runs.len() ==> !job_result(runs[j]).is_error(),
    ensures
        jobs_done(runs, continue_on_error, shutdown_from) == runs.len(),
        batch_outcome(runs, continue_on_error, shutdown_from) == Ok::<
            BatchStatus,
            StopReasonView,
        >(
            batch_status_of(
                cancelled_at(shutdown_from, runs.len() as int),
                failures(runs, runs.len() as int),
            ),
        ),
{
    lemma_first_failure(runs, 0);
    lemma_failures(runs, runs.len() as int);
}

/// Runs a batch: each job in turn, its lines appended to the report.
/// `runs` are the jobs in the order in which they are done, each with
/// what its files give; `shutdown_from` is the poll from which the
/// cancellation signal reads set, if it is ever set.
pub fn process_jobs(
    runs: Vec<JobRun>,
    continue_on_error: bool,
    shutdown_from: Option<usize>,
    writer: &mut String,
) -> (res: Result<BatchStatus, EarlyExitError>)
    ensures
        batch_view(res) == batch_outcome(runs@, continue_on_error, shutdown_from),
        final(writer)@ == old(writer)@ + batch_lines(
            runs@,
            jobs_done(runs@, continue_on_error, shutdown_from),
        ),
{
    let ghost all = runs@;
    let total = runs.len();
    let mut rest = runs;
    let mut num_failed: usize = 0;
    let mut i: usize = 0;
    assert(writer@ =~= old(writer)@ + batch_lines(all, 0));
    while i < total
        invariant
            all == runs@,
            total == all.len(),
            i <= total,
            rest@ == all.skip(i as int),
            num_failed == failures(all, i as int),
            num_failed <= i,
            !continue_on_error ==> forall|j: int|
                0 <= j < i ==> !job_result(all[j]).is_error(),
            shutdown_from matches Some(k) ==> k >= i,
            writer@ == old(writer)@ + batch_lines(all, i as int),
        decreases total - i,
    {
        let shutdown = match shutdown_from {
            Some(k) => k <= i,
            None => false,
        };
        match before_job(continue_on_error, shutdown) {
            Err(stop) => {
                proof {
                    lemma_batch_cancelled(all, continue_on_error, shutdown_from, i as int);
                }
                return Err(stop);
            },
            Ok(false) => {
                proof {
                    lemma_batch_cancelled(all, continue_on_error, shutdown_from, i as int);
                }
                return Ok(batch_status(true, num_failed));
            },
            Ok(true) => {},
        }
        let run = rest.remove(0);
        assert(run == all[i as int]);
        assert(rest@ =~= all.skip(i + 1));
        let result = process_job(run);
        write_jsonl_report_entry(&result, writer);
        assert(writer@ =~= old(writer)@ + batch_lines(all, i + 1));
        match after_job(continue_on_error, result, &mut num_failed) {
            Err(stop) => {
                proof {
                    lemma_batch_failed(all, shutdown_from, i as int);
                }
                return Err(stop);
            },
            Ok(_) => {},
        }
        i += 1;
    }
    proof {
        lemma_batch_ran_through(all, continue_on_error, shutdown_from);
    }
    let shutdown = match shutdown_from {
        Some(k) => k <= total,
        None => false,
    };
    Ok(batch_status(shutdown, num_failed))
}

/// Why a run did not end well.
#[derive(Debug)]
pub enum RunError {
    /// The user interrupted the run.
    Interrupted,
    /// Under fail-fast, a job failed; the text names it.
    Validation(String),
}

/// A [`RunError`] as plain text.
pub enum RunErrorView {
    Interrupted,
    Validation(Seq<char>),
}

impl View for RunError {
    type V = RunErrorView;

    open spec fn view(&self) -> RunErrorView {
        match self {
            RunError::Interrupted => RunErrorView::Interrupted,
            RunError::Validation(text) => RunErrorView::Validation(text@),
        }
    }
}

/// What a failed job ends a fail-fast run with.
pub open spec fn validation_error_message(path: Seq<char>) -> Seq<char> {
    "A validation error occurred in "@ + path + ". Aborting."@
}

/// How a run ends, given how its batch ended. A cancelled batch is an
/// interrupted run, whether it ran through or not. A batch that ended
/// with a failed job is a failed run, which names the job by its path.
/// Any other batch is a run that ended well, with the status of the
/// batch.
pub open spec fn run_outcome(batch: Result<BatchStatus, StopReasonView>) -> Result<
    BatchStatus,
    RunErrorView,
> {
    match batch {
        Ok(BatchStatus::Cancelled) => Err(RunErrorView::Interrupted),
        Ok(status) => Ok(status),
        Err(StopReasonView::Interrupted) => Err(RunErrorView::Interrupted),
        Err(StopReasonView::Error(result)) => Err(
            RunErrorView::Validation(validation_error_message(result.primary_path())),
        ),
    }
}

/// The end of a run as plain text and numbers.
pub open spec fn run_view(res: Result<BatchStatus, RunError>) -> Result<BatchStatus, RunErrorView> {
    match res {
        Ok(status) => Ok(status),
        Err(error) => Err(error@),
    }
}

/// Decides how a run ends, given how its batch ended.
pub fn conclude(batch: Result<BatchStatus, EarlyExitError>) -> (res: Result<BatchStatus, RunError>)
    ensures
        run_view(res) == run_outcome(batch_view(batch)),
{
    match batch {
        Ok(BatchStatus::Cancelled) => Err(RunError::Interrupted),
        Ok(status) => Ok(status),
        Err(EarlyExitError(StopReason::Interrupted)) => Err(RunError::Interrupted),
        Err(EarlyExitError(StopReason::Error(result))) => {
            let mut text = String::from_str("A validation error occurred in ");
            text.append(result.primary_path());
            text.append(". Aborting.");
            Err(RunError::Validation(text))
        },
    }
}

/// The exit code of a run: 0 if it ended well, 130 if it was
/// interrupted, 1 if a job failed under fail-fast.
pub fn exit_code(res: &Result<BatchStatus, RunError>) -> (code: u8)
    ensures
        code == (match run_view(*res) {
            Ok(_) => 0u8,
            Err(RunErrorView::Interrupted) => 130u8,
            Err(RunErrorView::Validation(_)) => 1u8,
        }),
{
    match res {
        Ok(_) => 0,
        Err(RunError::Interrupted) => 130,
        Err(RunError::Validation(_)) => 1,
    }
}

/// Runs a whole check: the batch, and then the decision how the run
/// ends. The lines of the report are appended to `report`.
pub fn run_check(
    runs: Vec<JobRun>,
    continue_on_error: bool,
    shutdown_from: Option<usize>,
    report: &mut String,
) -> (res: Result<BatchStatus, RunError>)
    ensures
        run_view(res) == run_outcome(batch_outcome(runs@, continue_on_error, shutdown_from)),
        final(report)@ == old(report)@ + batch_lines(
            runs@,
            jobs_done(runs@, continue_on_error, shutdown_from),
        ),
{
    conclude(process_jobs(runs, continue_on_error, shutdown_from, report))
}

/// A batch that continues on errors writes the lines of every job that
/// begins, and the number of failures in its status is the number of
/// those jobs that failed.
pub proof fn law_continue_on_error_runs_all(runs: Seq<JobRun>, shutdown_from: Option<usize>)
    requires
        runs.len() <= usize::MAX,
    ensures
        jobs_done(runs, true, shutdown_from) == jobs_started(runs, shutdown_from),
        batch_outcome(runs, true, shutdown_from) is Ok,
        shutdown_from is None ==> jobs_done(runs, true, shutdown_from) == runs.len() && (
        batch_outcome(runs, true, shutdown_from) == Ok::<BatchStatus, StopReasonView>(
            if failures(runs, runs.len() as int) > 0 {
                BatchStatus::Failed(failures(runs, runs.len() as int) as usize)
            } else {
                BatchStatus::Passed
            },
        )),
{
}

/// A fail-fast batch writes no line of a job after the first that
/// failed, and ends with that job.
pub proof fn law_fail_fast_stops_at_first_error(runs: Seq<JobRun>, k: int)
    requires
        0 <= k < runs.len(),
        forall|i: int| 0 <= i < k ==> !job_result(runs[i]).is_error(),
        job_result(runs[k]).is_error(),
    ensures
        batch_outcome(runs, false, None) == Err::<BatchStatus, StopReasonView>(
            StopReasonView::Error(job_result(runs[k])),
        ),
        jobs_done(runs, false, None) == k + 1,
{
    lemma_first_failure(runs, 0);
}

/// The name of the file at a path: its final component, or nothing where
/// the path has none.
pub fn filename(path: &str) -> (name: String)
    ensures
        name@ == (match file_name_of(path@) {
            Some(n) => n,
            None => Seq::empty(),
        }),
{
    match path_file_name(path) {
        Some(name) => name,
        None => String::new(),
    }
}

/// How the progress display of a file ends.
#[derive(Debug)]
pub enum ProgressEnd {
    /// The file passed: the display is finished with this message.
    Finish(String),
    /// The file failed: the display is abandoned with this message.
    Abandon(String),
}

/// Decides how the progress display of a file ends, given the name of
/// the file and its report.
pub fn finish_pb(filename: &str, report: &FileReport) -> (end: ProgressEnd)
    ensures
        match end {
            ProgressEnd::Finish(message) => report@.is_ok() && message@ == "✓ OK    "@
                + filename@,
            ProgressEnd::Abandon(message) => !report@.is_ok() && message@ == "✗ ERROR "@
                + filename@,
        },
{
    if report.is_ok() {
        let mut message = String::from_str("✓ OK    ");
        message.append(filename);
        ProgressEnd::Finish(message)
    } else {
        let mut message = String::from_str("✗ ERROR ");
        message.append(filename);
        ProgressEnd::Abandon(message)
    }
}

/// What an interrupt of the user leads to.
#[derive(Debug, Copy, Clone, PartialEq, Eq, Structural)]
pub enum InterruptAction {
    /// Set the cancellation signal and let running jobs finish.
    Shutdown,
    /// Leave at once, with this exit code.
    Exit(u8),
}

/// Decides what an interrupt leads to. `pending` is whether the
/// cancellation signal was set already. The first interrupt sets the
/// signal; one that finds it set ends the process at once.
pub fn on_interrupt(pending: bool) -> (action: InterruptAction)
    ensures
        action == (if pending {
            InterruptAction::Exit(130)
        } else {
            InterruptAction::Shutdown
        }),
{
    if pending {
        InterruptAction::Exit(130)
    } else {
        InterruptAction::Shutdown
    }
}

} // verus!
