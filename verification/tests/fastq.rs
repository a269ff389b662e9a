use grz_check::checker::{
    pair_report, pair_setup_failure, process_job, run_check, BatchStatus, CheckResult,
    FastqStream, JobRun, PairSetupFailure, Stats,
};
use grz_check::checks::common::{check_file, ScanAbort, SetupError};
use grz_check::checks::fastq::{
    check_single_fastq, process_paired_readers, scan_single_fastq, FastqCheckProcessor,
    FastqRecord, PairStep, PairedFastqJob, PairedFastqProcessor, ReadLengthCheck, SingleFastqJob,
};
use grz_check::sha256::SharedHashingReader;
use sha2::Digest;
use std::io::{BufReader, Read, Write};

const OK_R1: &str = "@SEQ1\nACGT\n+\nFFFF\n@SEQ2\nTGCA\n+\nFFFF\n";
const OK_R2: &str = "@SEQ1\nAAAA\n+\nFFFF\n@SEQ2\nTTTT\n+\nFFFF\n";
const BADLEN: &str = "@SEQ1\nACGT\n+\nFFFF\n@SEQ2\nTCG\n+\nFFF\n";
const COUNTS1: &str = "@SEQ1\nACGT\n+\nFFFF\n@SEQ2\nTGCA\n+\nFFFF\n";
const COUNTS2: &str = "@SEQ1\nACGT\n+\nFFFF\n";
const MALFORMED: &str = "SEQ1\nACGT\n+\nFFFF\n";
const OK_R2_LEN5: &str = "@SEQ1\nAAAAA\n+\nFFFFF\n@SEQ2\nTTTTA\n+\nFFFFF\n";
const OK_R1_SHA256: &str = "289d20eaa84a1f8c6738fea4862788a49f820d10e859ee8c56cd65abfdd693f3";

struct HashingSource<R> {
    inner: R,
    hasher: SharedHashingReader,
}

impl<R: Read> Read for HashingSource<R> {
    fn read(&mut self, buf: &mut [u8]) -> std::io::Result<usize> {
        let outcome = self.inner.read(buf);
        self.hasher.read(buf, outcome)
    }
}

fn convert(
    record: std::io::Result<noodles::fastq::Record>,
) -> Result<FastqRecord, String> {
    record
        .map(|r| FastqRecord { sequence_length: r.sequence().len() })
        .map_err(|e| e.to_string())
}

/// Decodes a whole file that is held in memory.
fn decode(content: &str) -> FastqStream {
    let source = HashingSource { inner: content.as_bytes(), hasher: SharedHashingReader::new() };
    let mut reader = noodles::fastq::io::Reader::new(BufReader::new(source));
    let mut records = Vec::new();
    for record in reader.records() {
        let record = convert(record);
        let failed = record.is_err();
        records.push(record);
        if failed {
            break;
        }
    }
    let hasher = reader.into_inner().into_inner().hasher;
    FastqStream { records, hasher: Some(hasher) }
}

fn gzip(content: &str) -> Vec<u8> {
    let mut encoder = flate2::write::GzEncoder::new(Vec::new(), flate2::Compression::default());
    encoder.write_all(content.as_bytes()).unwrap();
    encoder.finish().unwrap()
}

/// Decodes a whole compressed file that is held in memory: the bytes are
/// hashed as they are, then decompressed, then decoded.
fn decode_gz(on_disk: &[u8]) -> FastqStream {
    let mut hasher = SharedHashingReader::new();
    let mut records = Vec::new();
    {
        let source = BorrowedHashingSource { inner: on_disk, hasher: &mut hasher };
        let (decompressed, _format) = niffler::get_reader(Box::new(source)).unwrap();
        let mut reader = noodles::fastq::io::Reader::new(BufReader::new(decompressed));
        for record in reader.records() {
            let record = convert(record);
            let failed = record.is_err();
            records.push(record);
            if failed {
                break;
            }
        }
    }
    FastqStream { records, hasher: Some(hasher) }
}

fn sha256_hex(bytes: &[u8]) -> String {
    format!("{:x}", sha2::Sha256::digest(bytes))
}

fn lengths(lengths: &[usize]) -> Vec<Result<FastqRecord, String>> {
    lengths.iter().map(|&n| Ok(FastqRecord { sequence_length: n })).collect()
}

fn report_lines(report: &str) -> Vec<serde_json::Value> {
    report.lines().map(|line| serde_json::from_str(line).unwrap()).collect()
}

fn find_report<'a>(records: &'a [serde_json::Value], suffix: &str) -> &'a serde_json::Value {
    records
        .iter()
        .find(|r| r["data"]["path"].as_str().is_some_and(|p| p.ends_with(suffix)))
        .unwrap_or_else(|| panic!("Report for file ending in '{suffix}' not found"))
}

fn error_texts(record: &serde_json::Value) -> Vec<String> {
    record["data"]["errors"]
        .as_array()
        .unwrap()
        .iter()
        .map(|e| e.as_str().unwrap().to_string())
        .collect()
}

#[test]
fn test_valid_pair_with_different_lengths() {
    let runs = vec![JobRun::PairedFastq(
        PairedFastqJob {
            fq1_path: "/data/ok_r1.fastq.gz".to_string(),
            fq2_path: "/data/ok_r2_len5.fastq.gz".to_string(),
            fq1_length_check: ReadLengthCheck::Fixed(4),
            fq2_length_check: ReadLengthCheck::Fixed(5),
            fq1_size: gzip(OK_R1).len() as u64,
            fq2_size: gzip(OK_R2_LEN5).len() as u64,
        },
        Ok(decode_gz(&gzip(OK_R1))),
        Ok(decode_gz(&gzip(OK_R2_LEN5))),
    )];
    let mut report = String::new();
    let res = run_check(runs, false, None, &mut report);
    assert!(matches!(res, Ok(BatchStatus::Passed)));

    let mut records = report_lines(&report);
    records.sort_by(|a, b| {
        a["data"]["path"].as_str().unwrap().cmp(b["data"]["path"].as_str().unwrap())
    });

    assert_eq!(records.len(), 2);
    assert_eq!(records[0]["check_type"], "fastq");
    assert!(records[0]["data"]["path"].as_str().unwrap().ends_with("ok_r1.fastq.gz"));
    assert_eq!(records[0]["data"]["status"], "OK");
    assert_eq!(records[0]["data"]["read_length"], 4);
    assert_eq!(records[0]["data"]["num_records"], 2);
    assert_eq!(records[0]["data"]["checksum"], sha256_hex(&gzip(OK_R1)).as_str());

    assert_eq!(records[1]["check_type"], "fastq");
    assert!(records[1]["data"]["path"].as_str().unwrap().ends_with("ok_r2_len5.fastq.gz"));
    assert_eq!(records[1]["data"]["status"], "OK");
    assert_eq!(records[1]["data"]["read_length"], 5);
}

#[test]
fn test_multiple_inputs_with_continue_on_error() {
    let runs = vec![
        JobRun::PairedFastq(
            PairedFastqJob {
                fq1_path: "/data/counts1.fastq.gz".to_string(),
                fq2_path: "/data/counts2.fastq.gz".to_string(),
                fq1_length_check: ReadLengthCheck::Auto,
                fq2_length_check: ReadLengthCheck::Auto,
                fq1_size: COUNTS1.len() as u64,
                fq2_size: COUNTS2.len() as u64,
            },
            Ok(decode_gz(&gzip(COUNTS1))),
            Ok(decode_gz(&gzip(COUNTS2))),
        ),
        JobRun::PairedFastq(
            PairedFastqJob {
                fq1_path: "/data/ok_r1.fastq.gz".to_string(),
                fq2_path: "/data/ok_r2.fastq.gz".to_string(),
                fq1_length_check: ReadLengthCheck::Fixed(4),
                fq2_length_check: ReadLengthCheck::Fixed(4),
                fq1_size: OK_R1.len() as u64,
                fq2_size: OK_R2.len() as u64,
            },
            Ok(decode_gz(&gzip(OK_R1))),
            Ok(decode_gz(&gzip(OK_R2))),
        ),
        JobRun::SingleFastq(
            SingleFastqJob {
                path: "/data/badlen.fastq.gz".to_string(),
                length_check: ReadLengthCheck::Auto,
                size: BADLEN.len() as u64,
            },
            Ok(decode_gz(&gzip(BADLEN))),
        ),
    ];
    let mut report = String::new();
    let res = run_check(runs, true, None, &mut report);
    assert!(matches!(res, Ok(BatchStatus::Failed(2))));

    let records = report_lines(&report);
    assert_eq!(records.len(), 5);

    let data = find_report(&records, "counts1.fastq.gz");
    assert_eq!(data["data"]["status"], "ERROR");
    assert!(error_texts(data).iter().any(|e| e.contains("Mismatched read counts")));

    let data = find_report(&records, "counts2.fastq.gz");
    assert_eq!(data["data"]["status"], "ERROR");
    assert!(error_texts(data).iter().any(|e| e.contains("Mismatched read counts")));

    let data = find_report(&records, "badlen.fastq.gz");
    assert_eq!(data["data"]["status"], "ERROR");
    assert!(error_texts(data).iter().any(|e| e.contains("Found inconsistent read length")));

    let data = find_report(&records, "ok_r1.fastq.gz");
    assert_eq!(data["data"]["status"], "OK");
    assert!(error_texts(data).is_empty());
    let data = find_report(&records, "ok_r2.fastq.gz");
    assert_eq!(data["data"]["status"], "OK");
    assert!(error_texts(data).is_empty());
}

#[test]
fn pair_with_two_and_one_records_reports_the_mismatch_twice() {
    let result = process_job(JobRun::PairedFastq(
        PairedFastqJob {
            fq1_path: "r1.fastq".to_string(),
            fq2_path: "r2.fastq".to_string(),
            fq1_length_check: ReadLengthCheck::Auto,
            fq2_length_check: ReadLengthCheck::Auto,
            fq1_size: 0,
            fq2_size: 0,
        },
        Ok(decode(COUNTS1)),
        Ok(decode(COUNTS2)),
    ));
    assert!(result.is_error());
    assert_eq!(result.primary_path(), "r1.fastq");
    let records = grz_check::report::report_records(&result);
    assert_eq!(records.len(), 2);
    for record in &records {
        assert!(!record.ok);
        assert_eq!(
            record.errors,
            vec!["Mismatched read counts: R1 has more records than R2.".to_string()]
        );
    }
    assert_eq!(records[0].num_records, Some(2));
    assert_eq!(records[1].num_records, Some(1));
    let CheckResult::PairedFastq(pair) = result else {
        panic!("Expected the report of a pair");
    };
    assert!(pair.fq1_report.is_ok());
    assert!(pair.fq2_report.is_ok());
    assert!(!pair.is_ok());
}

#[test]
fn fixed_length_with_a_shorter_second_record() {
    let report = check_single_fastq(
        "badlen.fastq",
        ReadLengthCheck::Fixed(4),
        &decode(BADLEN).records,
        decode(BADLEN).hasher,
    );
    assert!(!report.is_ok());
    assert_eq!(
        report.errors,
        vec!["Found inconsistent read length at record #2: expected 4, got 3.".to_string()]
    );
    assert_eq!(report.stats, Some(Stats { num_records: 2, read_length: Some(4) }));
    assert!(report.warnings.is_empty());
}

#[test]
fn auto_takes_the_length_of_the_first_record() {
    let ok = scan_single_fastq(ReadLengthCheck::Auto, &lengths(&[7, 7, 7]), "record").unwrap();
    assert!(ok.errors.is_empty());
    assert_eq!(ok.stats, Some(Stats { num_records: 3, read_length: Some(7) }));

    let bad = scan_single_fastq(ReadLengthCheck::Auto, &lengths(&[7, 7, 8, 7]), "record").unwrap();
    assert_eq!(
        bad.errors,
        vec!["Found inconsistent read length at record #3: expected 7, got 8.".to_string()]
    );
    assert_eq!(bad.stats, Some(Stats { num_records: 3, read_length: Some(7) }));
}

#[test]
fn fixed_asks_its_length_of_the_first_record_too() {
    let bad = scan_single_fastq(ReadLengthCheck::Fixed(5), &lengths(&[4, 4]), "record").unwrap();
    assert_eq!(
        bad.errors,
        vec!["Found inconsistent read length at record #1: expected 5, got 4.".to_string()]
    );
    assert_eq!(bad.stats, Some(Stats { num_records: 1, read_length: Some(4) }));

    let ok = scan_single_fastq(ReadLengthCheck::Fixed(4), &lengths(&[4, 4]), "record").unwrap();
    assert!(ok.errors.is_empty());
    assert_eq!(ok.stats, Some(Stats { num_records: 2, read_length: Some(4) }));
}

#[test]
fn skip_does_not_look_at_lengths() {
    let ok = scan_single_fastq(ReadLengthCheck::Skip, &lengths(&[4, 9, 1]), "record").unwrap();
    assert!(ok.errors.is_empty());
    assert_eq!(ok.stats, Some(Stats { num_records: 3, read_length: Some(4) }));
}

#[test]
fn empty_file_is_an_error_without_stats() {
    let stream = decode("");
    assert!(stream.records.is_empty());
    let report =
        check_single_fastq("empty.fastq", ReadLengthCheck::Skip, &stream.records, stream.hasher);
    assert!(!report.is_ok());
    assert_eq!(report.errors, vec!["File is empty. Expected at least one record.".to_string()]);
    assert_eq!(report.stats, None);
    assert_eq!(
        report.sha256.as_deref(),
        Some("e3b0c44298fc1c149afbf4c8996fb92427ae41e4649b934ca495991b7852b855")
    );
}

#[test]
fn malformed_first_record_aborts_without_stats_or_checksum() {
    let stream = decode(MALFORMED);
    assert_eq!(stream.records.len(), 1);
    let report = check_single_fastq(
        "malformed.fastq",
        ReadLengthCheck::Auto,
        &stream.records,
        stream.hasher,
    );
    assert!(!report.is_ok());
    assert_eq!(report.errors.len(), 1);
    assert!(report.errors[0].starts_with("Failed to parse record record #1: "));
    assert_eq!(report.stats, None);
    assert_eq!(report.sha256, None);
}

#[test]
fn decode_error_keeps_the_records_before_it() {
    let mut records = lengths(&[4, 4]);
    records.push(Err("unexpected end of file".to_string()));
    records.push(Ok(FastqRecord { sequence_length: 4 }));
    let abort: ScanAbort =
        scan_single_fastq(ReadLengthCheck::Fixed(4), &records, "record").unwrap_err();
    assert_eq!(abort.message, "Failed to parse record record #3: unexpected end of file");
    assert_eq!(abort.stats, Some(Stats { num_records: 2, read_length: Some(4) }));

    let mut hasher = SharedHashingReader::new();
    let res: Result<usize, String> = hasher.read(&[1u8; 4], Ok(0));
    assert_eq!(res, Ok(0));
    let report = check_file(
        "cut.fastq",
        scan_single_fastq(ReadLengthCheck::Fixed(4), &records, "record"),
        Some(hasher),
    );
    assert_eq!(
        report.errors,
        vec!["Failed to parse record record #3: unexpected end of file".to_string()]
    );
    assert_eq!(report.stats, Some(Stats { num_records: 2, read_length: Some(4) }));
    assert_eq!(report.sha256, None);
}

#[test]
fn processor_is_fed_record_by_record() {
    let mut processor = FastqCheckProcessor::new(ReadLengthCheck::Auto);
    assert!(processor.is_ok());
    assert_eq!(processor.stats(), None);
    assert_eq!(processor.process_record(&Ok(FastqRecord { sequence_length: 3 }), "R1"), Ok(()));
    assert!(processor.is_ok());
    assert_eq!(
        processor.process_record(&Err("bad quality".to_string()), "R1"),
        Err("Failed to parse R1 record #2: bad quality".to_string())
    );
    assert!(processor.is_ok());
    assert_eq!(processor.stats(), Some(Stats { num_records: 1, read_length: Some(3) }));
    assert_eq!(processor.process_record(&Ok(FastqRecord { sequence_length: 2 }), "R1"), Ok(()));
    assert!(!processor.is_ok());
    let outcome = processor.finalize();
    assert_eq!(
        outcome.errors,
        vec!["Found inconsistent read length at R1 #2: expected 3, got 2.".to_string()]
    );
    assert_eq!(outcome.stats, Some(Stats { num_records: 2, read_length: Some(3) }));
    assert!(outcome.warnings.is_empty());
}

#[test]
fn streaming_scan_that_stops_early_leaves_no_checksum() {
    let source = HashingSource { inner: BADLEN.as_bytes(), hasher: SharedHashingReader::new() };
    let mut reader = noodles::fastq::io::Reader::new(BufReader::new(source));
    let mut processor = FastqCheckProcessor::new(ReadLengthCheck::Fixed(4));
    for record in reader.records() {
        processor.process_record(&convert(record), "record").unwrap();
        if !processor.is_ok() {
            break;
        }
    }
    let hasher = reader.into_inner().into_inner().hasher;
    assert!(!hasher.is_drained());
    let report = check_file("badlen.fastq", Ok(processor.finalize()), Some(hasher));
    assert_eq!(
        report.errors,
        vec!["Found inconsistent read length at record #2: expected 4, got 3.".to_string()]
    );
    assert_eq!(report.sha256, None);
}

#[test]
fn streaming_scan_to_the_end_reports_the_checksum() {
    let source = HashingSource { inner: OK_R1.as_bytes(), hasher: SharedHashingReader::new() };
    let mut reader = noodles::fastq::io::Reader::new(BufReader::with_capacity(8, source));
    let mut processor = FastqCheckProcessor::new(ReadLengthCheck::Auto);
    for record in reader.records() {
        processor.process_record(&convert(record), "record").unwrap();
        if !processor.is_ok() {
            break;
        }
    }
    let hasher = reader.into_inner().into_inner().hasher;
    assert!(hasher.is_drained());
    let report = check_file("ok_r1.fastq", Ok(processor.finalize()), Some(hasher));
    assert!(report.is_ok());
    assert_eq!(report.sha256.as_deref(), Some(OK_R1_SHA256));
    assert_eq!(report.stats, Some(Stats { num_records: 2, read_length: Some(4) }));
}

#[test]
fn longer_first_mate_takes_one_record_more() {
    let (fq1, fq2, pair_errors) = process_paired_readers(
        lengths(&[4, 4, 4, 4]),
        lengths(&[5]),
        ReadLengthCheck::Fixed(4),
        ReadLengthCheck::Fixed(5),
    )
    .unwrap();
    assert_eq!(pair_errors, vec!["Mismatched read counts: R1 has more records than R2.".to_string()]);
    assert!(fq1.errors.is_empty());
    assert!(fq2.errors.is_empty());
    assert_eq!(fq1.stats, Some(Stats { num_records: 2, read_length: Some(4) }));
    assert_eq!(fq2.stats, Some(Stats { num_records: 1, read_length: Some(5) }));
}

#[test]
fn longer_second_mate_is_named() {
    let (fq1, fq2, pair_errors) = process_paired_readers(
        lengths(&[4]),
        lengths(&[4, 6]),
        ReadLengthCheck::Auto,
        ReadLengthCheck::Auto,
    )
    .unwrap();
    assert_eq!(pair_errors, vec!["Mismatched read counts: R2 has more records than R1.".to_string()]);
    assert!(fq1.errors.is_empty());
    assert_eq!(
        fq2.errors,
        vec!["Found inconsistent read length at R2 #2: expected 4, got 6.".to_string()]
    );
    assert_eq!(fq1.stats, Some(Stats { num_records: 1, read_length: Some(4) }));
    assert_eq!(fq2.stats, Some(Stats { num_records: 2, read_length: Some(4) }));
}

#[test]
fn second_mate_without_records_is_empty_and_shorter() {
    let (fq1, fq2, pair_errors) = process_paired_readers(
        lengths(&[4]),
        lengths(&[]),
        ReadLengthCheck::Skip,
        ReadLengthCheck::Skip,
    )
    .unwrap();
    assert_eq!(pair_errors, vec!["Mismatched read counts: R1 has more records than R2.".to_string()]);
    assert!(fq1.errors.is_empty());
    assert_eq!(fq2.errors, vec!["File is empty. Expected at least one record.".to_string()]);
    assert_eq!(fq2.stats, None);
}

#[test]
fn pair_stops_at_the_first_length_error_of_either_mate() {
    let (fq1, fq2, pair_errors) = process_paired_readers(
        lengths(&[4, 4, 4]),
        lengths(&[4, 3, 4, 4]),
        ReadLengthCheck::Fixed(4),
        ReadLengthCheck::Fixed(4),
    )
    .unwrap();
    assert!(pair_errors.is_empty());
    assert!(fq1.errors.is_empty());
    assert_eq!(
        fq2.errors,
        vec!["Found inconsistent read length at R2 #2: expected 4, got 3.".to_string()]
    );
    assert_eq!(fq1.stats, Some(Stats { num_records: 2, read_length: Some(4) }));
    assert_eq!(fq2.stats, Some(Stats { num_records: 2, read_length: Some(4) }));
}

#[test]
fn pair_of_equal_length_passes() {
    let (fq1, fq2, pair_errors) = process_paired_readers(
        lengths(&[4, 4]),
        lengths(&[5, 5]),
        ReadLengthCheck::Auto,
        ReadLengthCheck::Auto,
    )
    .unwrap();
    assert!(pair_errors.is_empty());
    assert!(fq1.errors.is_empty() && fq2.errors.is_empty());
    assert_eq!(fq1.stats, Some(Stats { num_records: 2, read_length: Some(4) }));
    assert_eq!(fq2.stats, Some(Stats { num_records: 2, read_length: Some(5) }));
}

#[test]
fn decode_error_in_a_pair_is_held_against_both_mates() {
    let mut second = lengths(&[4]);
    second.push(Err("truncated".to_string()));
    let scan = process_paired_readers(
        lengths(&[4, 4, 4]),
        second,
        ReadLengthCheck::Auto,
        ReadLengthCheck::Auto,
    );
    let abort = scan.unwrap_err();
    assert_eq!(abort.message, "Failed to parse R2 record #2: truncated");
    assert_eq!(abort.fq1_stats, Some(Stats { num_records: 2, read_length: Some(4) }));
    assert_eq!(abort.fq2_stats, Some(Stats { num_records: 1, read_length: Some(4) }));

    let report = pair_report("a_1.fq", "a_2.fq", Err(abort), None, None);
    assert_eq!(report.fq1_report.errors, vec!["Failed to parse R2 record #2: truncated".to_string()]);
    assert_eq!(report.fq2_report.errors, vec!["Failed to parse R2 record #2: truncated".to_string()]);
    assert_eq!(report.pair_errors, vec!["Parsing error during paired fastq check.".to_string()]);
    assert_eq!(report.fq1_report.sha256, None);
    assert_eq!(report.fq2_report.sha256, None);
    assert_eq!(report.fq1_report.stats, Some(Stats { num_records: 2, read_length: Some(4) }));
}

#[test]
fn decode_error_of_the_first_mate_comes_first() {
    let scan = process_paired_readers(
        vec![Err("bad R1".to_string())],
        vec![Err("bad R2".to_string())],
        ReadLengthCheck::Auto,
        ReadLengthCheck::Auto,
    );
    let abort = scan.unwrap_err();
    assert_eq!(abort.message, "Failed to parse R1 record #1: bad R1");
    assert_eq!(abort.fq1_stats, None);
    assert_eq!(abort.fq2_stats, None);
}

#[test]
fn pair_processor_is_fed_step_by_step() {
    let mut processor = PairedFastqProcessor::new(ReadLengthCheck::Auto, ReadLengthCheck::Skip);
    let both = PairStep::Both(
        Ok(FastqRecord { sequence_length: 4 }),
        Ok(FastqRecord { sequence_length: 9 }),
    );
    assert_eq!(processor.step(&both), Ok(true));
    assert_eq!(processor.step(&PairStep::Right(Ok(FastqRecord { sequence_length: 1 }))), Ok(false));
    let (fq1, fq2, pair_errors) = processor.finalize();
    assert_eq!(fq1.stats, Some(Stats { num_records: 1, read_length: Some(4) }));
    assert_eq!(fq2.stats, Some(Stats { num_records: 2, read_length: Some(9) }));
    assert_eq!(pair_errors, vec!["Mismatched read counts: R2 has more records than R1.".to_string()]);

    let mut failing = PairedFastqProcessor::new(ReadLengthCheck::Auto, ReadLengthCheck::Auto);
    assert_eq!(
        failing.step(&PairStep::Left(Err("oops".to_string()))),
        Err("Failed to parse R1 record #1: oops".to_string())
    );
    let abort = failing.abort("Failed to parse R1 record #1: oops".to_string());
    assert_eq!(abort.fq1_stats, None);
    assert_eq!(abort.fq2_stats, None);
}

#[test]
fn mate_whose_stream_fails_is_named_to_the_other() {
    let first = pair_setup_failure(
        "dir/my \"r1\".fq",
        "dir/r2.fq",
        PairSetupFailure::First(SetupError::Open),
    );
    assert_eq!(
        first.fq1_report.errors,
        vec!["Failed to open file for reading: dir/my \"r1\".fq".to_string()]
    );
    assert_eq!(
        first.fq2_report.errors,
        vec!["R1 (\"dir/my \\\"r1\\\".fq\") failed to parse; check aborted.".to_string()]
    );
    assert!(first.pair_errors.is_empty());
    assert!(!first.is_ok());

    let second = pair_setup_failure("r1.fq", "r2.fq", PairSetupFailure::Second(SetupError::Decompress));
    assert_eq!(
        second.fq1_report.errors,
        vec!["R2 (\"r2.fq\") failed to parse; check aborted.".to_string()]
    );
    assert_eq!(second.fq2_report.errors, vec!["Failed to decompress file: r2.fq".to_string()]);

    let both = pair_setup_failure(
        "r1.fq",
        "r2.fq",
        PairSetupFailure::Both(SetupError::Open, SetupError::Open),
    );
    assert_eq!(both.fq1_report.errors, vec!["Failed to open file for reading: r1.fq".to_string()]);
    assert_eq!(both.fq2_report.errors, vec!["Failed to open file for reading: r2.fq".to_string()]);
    assert_eq!(both.fq1_report.stats, None);
    assert_eq!(both.fq2_report.sha256, None);
}

#[test]
fn job_with_a_stream_that_cannot_be_set_up() {
    let result = process_job(JobRun::SingleFastq(
        SingleFastqJob {
            path: "gone.fastq".to_string(),
            length_check: ReadLengthCheck::Auto,
            size: 0,
        },
        Err(SetupError::Open),
    ));
    assert!(result.is_error());
    let CheckResult::SingleFastq(report) = result else {
        panic!("Expected the report of a single file");
    };
    assert_eq!(report.errors, vec!["Failed to open file for reading: gone.fastq".to_string()]);

    let pair = process_job(JobRun::PairedFastq(
        PairedFastqJob {
            fq1_path: "r1.fq".to_string(),
            fq2_path: "r2.fq".to_string(),
            fq1_length_check: ReadLengthCheck::Auto,
            fq2_length_check: ReadLengthCheck::Auto,
            fq1_size: 0,
            fq2_size: 0,
        },
        Ok(decode(OK_R1)),
        Err(SetupError::Open),
    ));
    let CheckResult::PairedFastq(report) = pair else {
        panic!("Expected the report of a pair");
    };
    assert_eq!(
        report.fq1_report.errors,
        vec!["R2 (\"r2.fq\") failed to parse; check aborted.".to_string()]
    );
    assert_eq!(report.fq2_report.errors, vec!["Failed to open file for reading: r2.fq".to_string()]);
}

struct BorrowedHashingSource<'a, R> {
    inner: R,
    hasher: &'a mut SharedHashingReader,
}

impl<R: Read> Read for BorrowedHashingSource<'_, R> {
    fn read(&mut self, buf: &mut [u8]) -> std::io::Result<usize> {
        let outcome = self.inner.read(buf);
        self.hasher.read(buf, outcome)
    }
}

#[test]
fn checksum_of_a_compressed_file_is_that_of_its_bytes_on_disk() {
    let on_disk = gzip(OK_R1);
    let expected = sha256_hex(&on_disk);
    assert_ne!(expected, OK_R1_SHA256);

    let stream = decode_gz(&on_disk);
    assert!(stream.hasher.as_ref().is_some_and(|h| h.is_drained()));
    let report = check_single_fastq(
        "ok_r1.fastq.gz",
        ReadLengthCheck::Fixed(4),
        &stream.records,
        stream.hasher,
    );
    assert!(report.is_ok());
    assert_eq!(report.stats, Some(Stats { num_records: 2, read_length: Some(4) }));
    assert_eq!(report.sha256, Some(expected));
}
