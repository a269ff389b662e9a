use grz_check::checker::{
    after_job, batch_status, before_job, conclude, create_jobs, exit_code, filename, finish_pb,
    on_interrupt, process_jobs, read_length_check, run_check, BatchStatus, CheckResult,
    EarlyExitError, FileReport, InterruptAction, Job, JobRun, PairReport, ProgressEnd, RawStream,
    RunError, Stats, StopReason,
};
use grz_check::checks::bam::BamCheckJob;
use grz_check::checks::common::SetupError;
use grz_check::checks::fastq::{PairedFastqJob, ReadLengthCheck, SingleFastqJob};
use grz_check::checks::raw::RawJob;
use grz_check::report::{render_record, report_records, write_jsonl_report_entry, CheckType};
use grz_check::sha256::SharedHashingReader;

const ABC_SHA256: &str = "ba7816bf8f01cfea414140de5dae2223b00361a396177a9cb410ff61f20015ad";

fn drained(content: &[u8]) -> SharedHashingReader {
    let mut hasher = SharedHashingReader::new();
    let mut buf = vec![0u8; content.len() + 1];
    buf[..content.len()].copy_from_slice(content);
    let res: Result<usize, String> = hasher.read(&buf, Ok(content.len()));
    assert!(res.is_ok());
    let res: Result<usize, String> = hasher.read(&buf, Ok(0));
    assert!(res.is_ok());
    hasher
}

fn good(path: &str) -> JobRun {
    JobRun::Raw(
        RawJob { path: path.to_string(), size: 3 },
        Ok(RawStream { drained: Ok(3), hasher: Some(drained(b"abc")) }),
    )
}

fn bad(path: &str) -> JobRun {
    JobRun::Raw(RawJob { path: path.to_string(), size: 3 }, Err(SetupError::Open))
}

fn file(path: &str, errors: &[&str]) -> FileReport {
    FileReport::new(
        path,
        Some(Stats { num_records: 2, read_length: Some(4) }),
        errors.iter().map(|e| e.to_string()).collect(),
        vec![],
    )
}

#[test]
fn file_report_builders() {
    let report = FileReport::new(
        "a.fq",
        Some(Stats { num_records: 1, read_length: None }),
        vec![],
        vec!["w".to_string()],
    );
    assert_eq!(report.path, "a.fq");
    assert_eq!(report.stats, Some(Stats { num_records: 1, read_length: None }));
    assert_eq!(report.sha256, None);
    assert!(report.is_ok());
    let report = report.with_sha256(Some("00ff".to_string()));
    assert_eq!(report.sha256.as_deref(), Some("00ff"));
    assert_eq!(report.warnings, vec!["w".to_string()]);
    let report = report.with_sha256(None);
    assert_eq!(report.sha256, None);

    let failed = FileReport::new_with_error("b.fq", "broken".to_string());
    assert_eq!(failed.path, "b.fq");
    assert_eq!(failed.errors, vec!["broken".to_string()]);
    assert_eq!(failed.stats, None);
    assert_eq!(failed.sha256, None);
    assert!(failed.warnings.is_empty());
    assert!(!failed.is_ok());
}

#[test]
fn pair_is_valid_only_without_any_error() {
    let ok = PairReport {
        fq1_report: file("1.fq", &[]),
        fq2_report: file("2.fq", &[]),
        pair_errors: vec![],
    };
    assert!(ok.is_ok());
    let pair_level = PairReport {
        fq1_report: file("1.fq", &[]),
        fq2_report: file("2.fq", &[]),
        pair_errors: vec!["mismatch".to_string()],
    };
    assert!(pair_level.fq1_report.is_ok() && pair_level.fq2_report.is_ok());
    assert!(!pair_level.is_ok());
    let file_level = PairReport {
        fq1_report: file("1.fq", &[]),
        fq2_report: file("2.fq", &["bad"]),
        pair_errors: vec![],
    };
    assert!(!file_level.is_ok());
    assert!(CheckResult::PairedFastq(file_level).is_error());
    assert!(!CheckResult::PairedFastq(ok).is_error());
}

#[test]
fn primary_path_is_that_of_the_first_file() {
    let pair = CheckResult::PairedFastq(PairReport {
        fq1_report: file("1.fq", &[]),
        fq2_report: file("2.fq", &[]),
        pair_errors: vec![],
    });
    assert_eq!(pair.primary_path(), "1.fq");
    assert_eq!(CheckResult::SingleFastq(file("s.fq", &[])).primary_path(), "s.fq");
    assert_eq!(CheckResult::Bam(file("b.bam", &[])).primary_path(), "b.bam");
    assert_eq!(CheckResult::Raw(file("r.bin", &["x"])).primary_path(), "r.bin");
    assert!(CheckResult::Raw(file("r.bin", &["x"])).is_error());
}

#[test]
fn single_read_record_as_json() {
    let result = CheckResult::SingleFastq(
        file("a.fq", &[]).with_sha256(Some(ABC_SHA256.to_string())),
    );
    let mut report = String::new();
    write_jsonl_report_entry(&result, &mut report);
    assert_eq!(
        report,
        format!(
            "{{\"check_type\":\"fastq\",\"data\":{{\"path\":\"a.fq\",\"status\":\"OK\",\"num_records\":2,\"read_length\":4,\"checksum\":\"{ABC_SHA256}\",\"errors\":[],\"warnings\":[]}}}}\n"
        )
    );
}

#[test]
fn container_record_has_no_read_length() {
    let mut bam = file("b.bam", &[]);
    bam.warnings = vec!["first".to_string(), "second".to_string()];
    let mut report = String::from("earlier line\n");
    write_jsonl_report_entry(&CheckResult::Bam(bam), &mut report);
    assert_eq!(
        report,
        "earlier line\n{\"check_type\":\"bam\",\"data\":{\"path\":\"b.bam\",\"status\":\"OK\",\"num_records\":2,\"checksum\":null,\"errors\":[],\"warnings\":[\"first\",\"second\"]}}\n"
    );
}

#[test]
fn raw_record_has_no_stats() {
    let raw = file("r.bin", &["e1", "e2", "e3"]);
    let records = report_records(&CheckResult::Raw(raw));
    assert_eq!(records.len(), 1);
    assert_eq!(records[0].check_type, CheckType::Raw);
    assert_eq!(records[0].num_records, None);
    assert_eq!(records[0].read_length, None);
    assert!(!records[0].ok);
    assert_eq!(
        render_record(&records[0]),
        "{\"check_type\":\"raw\",\"data\":{\"path\":\"r.bin\",\"status\":\"ERROR\",\"checksum\":null,\"errors\":[\"e1\",\"e2\",\"e3\"],\"warnings\":[]}}"
    );
}

#[test]
fn absent_stats_are_written_as_null() {
    let report = FileReport::new_with_error("gone.fq", "cannot open".to_string());
    let mut text = String::new();
    write_jsonl_report_entry(&CheckResult::SingleFastq(report), &mut text);
    assert_eq!(
        text,
        "{\"check_type\":\"fastq\",\"data\":{\"path\":\"gone.fq\",\"status\":\"ERROR\",\"num_records\":null,\"read_length\":null,\"checksum\":null,\"errors\":[\"cannot open\"],\"warnings\":[]}}\n"
    );
}

#[test]
fn texts_are_escaped_as_json_strings() {
    let report = FileReport::new_with_error(
        "dir/we\"ird\\name.fq",
        "line one\nline two\ttabbed \u{1} caf\u{e9}".to_string(),
    );
    let mut text = String::new();
    write_jsonl_report_entry(&CheckResult::Raw(report), &mut text);
    assert_eq!(
        text,
        "{\"check_type\":\"raw\",\"data\":{\"path\":\"dir/we\\\"ird\\\\name.fq\",\"status\":\"ERROR\",\"checksum\":null,\"errors\":[\"line one\\nline two\\ttabbed \\u0001 caf\u{e9}\"],\"warnings\":[]}}\n"
    );
    assert_eq!(text.lines().count(), 1);
    let parsed: serde_json::Value = serde_json::from_str(text.trim_end()).unwrap();
    assert_eq!(parsed["data"]["path"], "dir/we\"ird\\name.fq");
    assert_eq!(parsed["data"]["errors"][0], "line one\nline two\ttabbed \u{1} caf\u{e9}");
}

#[test]
fn both_records_of_a_pair_carry_the_pair_errors() {
    let pair = CheckResult::PairedFastq(PairReport {
        fq1_report: file("1.fq", &["own error"]),
        fq2_report: file("2.fq", &[]),
        pair_errors: vec!["pair error".to_string()],
    });
    let records = report_records(&pair);
    assert_eq!(records.len(), 2);
    assert_eq!(records[0].path, "1.fq");
    assert_eq!(records[0].errors, vec!["own error".to_string(), "pair error".to_string()]);
    assert_eq!(records[1].path, "2.fq");
    assert_eq!(records[1].errors, vec!["pair error".to_string()]);
    assert!(!records[0].ok && !records[1].ok);
    assert_eq!(records[0].check_type, CheckType::Fastq);
    assert_eq!(records[0].num_records, Some(2));
    assert_eq!(records[0].read_length, Some(4));

    let mut text = String::new();
    write_jsonl_report_entry(&pair, &mut text);
    assert_eq!(text.lines().count(), 2);
}

#[test]
fn continue_on_error_runs_every_job_and_counts_failures() {
    let runs = vec![good("a.bin"), bad("b.bin"), good("c.bin")];
    let mut report = String::new();
    let res = process_jobs(runs, true, None, &mut report);
    assert!(matches!(res, Ok(BatchStatus::Failed(1))));
    let lines: Vec<serde_json::Value> =
        report.lines().map(|l| serde_json::from_str(l).unwrap()).collect();
    assert_eq!(lines.len(), 3);
    assert_eq!(lines[0]["data"]["status"], "OK");
    assert_eq!(lines[0]["data"]["checksum"], ABC_SHA256);
    assert_eq!(lines[1]["data"]["status"], "ERROR");
    assert_eq!(lines[1]["data"]["errors"][0], "Failed to open file for reading: b.bin");
    assert_eq!(lines[2]["data"]["status"], "OK");
    assert_eq!(res.unwrap().message(), "✗ Processing complete. 1 pairs/files failed.");
}

#[test]
fn continue_on_error_without_failures_passes() {
    let mut report = String::new();
    let res = run_check(vec![good("a.bin"), good("b.bin")], true, None, &mut report);
    assert!(matches!(res, Ok(BatchStatus::Passed)));
    assert_eq!(exit_code(&res), 0);
    assert_eq!(report.lines().count(), 2);
    assert_eq!(BatchStatus::Passed.message(), "✓ All checks passed!");
}

#[test]
fn continue_on_error_still_ends_well_with_failures() {
    let mut report = String::new();
    let res = run_check(vec![bad("a.bin"), bad("b.bin")], true, None, &mut report);
    assert!(matches!(res, Ok(BatchStatus::Failed(2))));
    assert_eq!(exit_code(&res), 0);
}

#[test]
fn fail_fast_stops_at_the_first_failed_job() {
    let runs = vec![good("a.bin"), bad("b.bin"), good("c.bin"), bad("d.bin")];
    let mut report = String::new();
    let res = process_jobs(runs, false, None, &mut report);
    let Err(EarlyExitError(StopReason::Error(failed))) = res else {
        panic!("Expected the batch to stop at a failed job");
    };
    assert_eq!(failed.primary_path(), "b.bin");
    assert_eq!(report.lines().count(), 2);
    let stop = EarlyExitError(StopReason::Error(failed));
    assert_eq!(stop.message(), "A validation error occurred, exiting.");
    let run = conclude(Err(stop));
    assert_eq!(exit_code(&run), 1);
    let Err(RunError::Validation(text)) = run else {
        panic!("Expected a failed run");
    };
    assert_eq!(text, "A validation error occurred in b.bin. Aborting.");
}

#[test]
fn fail_fast_without_failures_passes() {
    let mut report = String::new();
    let res = run_check(vec![good("a.bin")], false, None, &mut report);
    assert!(matches!(res, Ok(BatchStatus::Passed)));
    assert_eq!(report.lines().count(), 1);
}

#[test]
fn cancelled_jobs_are_not_started() {
    let runs = vec![good("a.bin"), bad("b.bin"), good("c.bin")];
    let mut report = String::new();
    let res = process_jobs(runs, true, Some(1), &mut report);
    assert!(matches!(res, Ok(BatchStatus::Cancelled)));
    assert_eq!(report.lines().count(), 1);
    assert_eq!(BatchStatus::Cancelled.message(), "✗ Operation cancelled by user.");
    let run = conclude(res);
    assert!(matches!(run, Err(RunError::Interrupted)));
    assert_eq!(exit_code(&run), 130);

    let runs = vec![good("a.bin"), good("b.bin")];
    let mut report = String::new();
    let res = process_jobs(runs, false, Some(0), &mut report);
    let Err(stop) = res else {
        panic!("Expected the batch to be interrupted");
    };
    assert!(matches!(stop.0, StopReason::Interrupted));
    assert_eq!(stop.message(), "Operation was interrupted by the user.");
    assert_eq!(report, "");
    assert_eq!(exit_code(&conclude(Err(stop))), 130);
}

#[test]
fn cancellation_after_the_last_job_still_interrupts_the_run() {
    let mut report = String::new();
    let res = run_check(vec![good("a.bin")], false, Some(1), &mut report);
    assert!(matches!(res, Err(RunError::Interrupted)));
    assert_eq!(report.lines().count(), 1);

    let mut report = String::new();
    let res = run_check(vec![good("a.bin")], true, Some(2), &mut report);
    assert!(matches!(res, Ok(BatchStatus::Passed)));
}

#[test]
fn failure_before_the_cancellation_wins_under_fail_fast() {
    let runs = vec![bad("a.bin"), good("b.bin")];
    let mut report = String::new();
    let res = run_check(runs, false, Some(1), &mut report);
    assert!(matches!(res, Err(RunError::Validation(_))));
    assert_eq!(report.lines().count(), 1);
}

#[test]
fn empty_batch_passes() {
    let mut report = String::new();
    let res = run_check(vec![], false, None, &mut report);
    assert!(matches!(res, Ok(BatchStatus::Passed)));
    assert_eq!(report, "");
}

#[test]
fn decisions_around_a_job() {
    assert!(matches!(before_job(true, false), Ok(true)));
    assert!(matches!(before_job(false, false), Ok(true)));
    assert!(matches!(before_job(true, true), Ok(false)));
    assert!(matches!(before_job(false, true), Err(EarlyExitError(StopReason::Interrupted))));

    let mut failed = 0usize;
    assert!(after_job(true, CheckResult::Raw(file("a", &[])), &mut failed).is_ok());
    assert_eq!(failed, 0);
    assert!(after_job(true, CheckResult::Raw(file("a", &["e"])), &mut failed).is_ok());
    assert_eq!(failed, 1);
    assert!(after_job(false, CheckResult::Raw(file("a", &[])), &mut failed).is_ok());
    let stop = after_job(false, CheckResult::Raw(file("a", &["e"])), &mut failed).unwrap_err();
    assert!(matches!(stop.0, StopReason::Error(_)));
    assert_eq!(failed, 1);

    assert_eq!(batch_status(false, 0), BatchStatus::Passed);
    assert_eq!(batch_status(false, 3), BatchStatus::Failed(3));
    assert_eq!(batch_status(true, 3), BatchStatus::Cancelled);
    assert_eq!(batch_status(true, 0), BatchStatus::Cancelled);
}

#[test]
fn second_interrupt_leaves_at_once() {
    assert_eq!(on_interrupt(false), InterruptAction::Shutdown);
    assert_eq!(on_interrupt(true), InterruptAction::Exit(130));
}

#[test]
fn numbers_on_the_command_line() {
    assert_eq!(read_length_check(-1), ReadLengthCheck::Skip);
    assert_eq!(read_length_check(i64::MIN), ReadLengthCheck::Skip);
    assert_eq!(read_length_check(0), ReadLengthCheck::Auto);
    assert_eq!(read_length_check(151), ReadLengthCheck::Fixed(151));
}

#[test]
fn jobs_are_gathered_by_kind_with_their_total_size() {
    let (jobs, total) = create_jobs(
        vec![PairedFastqJob {
            fq1_path: "1.fq".to_string(),
            fq2_path: "2.fq".to_string(),
            fq1_length_check: ReadLengthCheck::Fixed(4),
            fq2_length_check: ReadLengthCheck::Auto,
            fq1_size: 10,
            fq2_size: 20,
        }],
        vec![
            SingleFastqJob { path: "s1.fq".to_string(), length_check: ReadLengthCheck::Skip, size: 1 },
            SingleFastqJob { path: "s2.fq".to_string(), length_check: ReadLengthCheck::Skip, size: 2 },
        ],
        vec![BamCheckJob { path: "b.bam".to_string(), size: 300 }],
        vec![RawJob { path: "r.bin".to_string(), size: 4000 }],
    );
    assert_eq!(total, 4333);
    assert_eq!(jobs.len(), 5);
    assert!(matches!(&jobs[0], Job::PairedFastq(j) if j.fq2_path == "2.fq"));
    assert!(matches!(&jobs[1], Job::SingleFastq(j) if j.path == "s1.fq"));
    assert!(matches!(&jobs[2], Job::SingleFastq(j) if j.path == "s2.fq"));
    assert!(matches!(&jobs[3], Job::Bam(j) if j.path == "b.bam"));
    assert!(matches!(&jobs[4], Job::Raw(j) if j.size == 4000));

    let (none, zero) = create_jobs(vec![], vec![], vec![], vec![]);
    assert!(none.is_empty());
    assert_eq!(zero, 0);
}

#[test]
fn file_names_and_progress_endings() {
    assert_eq!(filename("/data/run/sample_R1.fastq.gz"), "sample_R1.fastq.gz");
    assert_eq!(filename("relative/dir/"), "dir");
    assert_eq!(filename("/"), "");
    assert_eq!(filename("a/.."), "");

    let ok = finish_pb("a.fq", &file("a.fq", &[]));
    assert!(matches!(ok, ProgressEnd::Finish(m) if m == "✓ OK    a.fq"));
    let failed = finish_pb("a.fq", &file("a.fq", &["e"]));
    assert!(matches!(failed, ProgressEnd::Abandon(m) if m == "✗ ERROR a.fq"));
}
