//! The validators of short-read files: one file on its own, or the two
//! mates of a pair walked in lockstep.

use vstd::prelude::*;
use crate::checker::{FileReport, Stats};
use crate::checks::common::{
    check_file, file_report, hasher_view, scan_view, CheckOutcome, CheckOutcomeView, ScanAbort,
    ScanAbortView,
};
use crate::sha256::{HashingState, SharedHashingReader};
use crate::text::{decimal, decimal_string, texts};

verus! {

/// What is asked of the sequence lengths of the records of one file.
#[derive(Debug, Copy, Clone, PartialEq, Eq, Structural)]
pub enum ReadLengthCheck {
    /// Every record has this length.
    Fixed(usize),
    /// Every record has the length of the first.
    Auto,
    /// Lengths are not looked at.
    Skip,
}

/// What the validator reads of a decoded record.
#[derive(Debug, Copy, Clone, PartialEq, Eq, Structural)]
pub struct FastqRecord {
    /// The number of bases of the record's sequence.
    pub sequence_length: usize,
}

/// A single-read job: one file.
#[derive(Debug)]
pub struct SingleFastqJob {
    pub path: String,
    pub length_check: ReadLengthCheck,
    /// Declared size in bytes, for progress totals only.
    pub size: u64,
}

/// A paired-read job: two mates, each with a length policy of its own.
#[derive(Debug)]
pub struct PairedFastqJob {
    pub fq1_path: String,
    pub fq2_path: String,
    pub fq1_length_check: ReadLengthCheck,
    pub fq2_length_check: ReadLengthCheck,
    /// Declared sizes in bytes, for progress totals only.
    pub fq1_size: u64,
    pub fq2_size: u64,
}

/// The error of a record that could not be decoded. `index` counts
/// records from 1.
pub open spec fn parse_error_message(file_id: Seq<char>, index: nat, cause: Seq<char>) -> Seq<
    char,
> {
    "Failed to parse "@ + file_id + " record #"@ + decimal(index) + ": "@ + cause
}

/// The error of a record whose sequence has another length than it must.
/// `index` counts records from 1.
pub open spec fn length_error_message(
    file_id: Seq<char>,
    index: nat,
    expected: nat,
    found: nat,
) -> Seq<char> {
    "Found inconsistent read length at "@ + file_id + " #"@ + decimal(index) + ": expected "@
        + decimal(expected) + ", got "@ + decimal(found) + "."@
}

/// The error of a file without records.
pub open spec fn empty_file_message() -> Seq<char> {
    "File is empty. Expected at least one record."@
}

/// The pair-level error of a first mate that outlasts the second.
pub open spec fn r1_longer_message() -> Seq<char> {
    "Mismatched read counts: R1 has more records than R2."@
}

/// The pair-level error of a second mate that outlasts the first.
pub open spec fn r2_longer_message() -> Seq<char> {
    "Mismatched read counts: R2 has more records than R1."@
}

/// What a validator knows of its file in the middle of a scan.
pub struct ProcessorState {
    pub length_check: ReadLengthCheck,
    /// Records decoded so far.
    pub num_records: u64,
    /// Sequence length of the first record, once there is one.
    pub read_length: Option<usize>,
    pub errors: Seq<Seq<char>>,
}

impl ProcessorState {
    /// The state before the first record.
    pub open spec fn initial(length_check: ReadLengthCheck) -> ProcessorState {
        ProcessorState {
            length_check: length_check,
            num_records: 0,
            read_length: None,
            errors: Seq::empty(),
        }
    }

    /// The length that the next record must have, if any is asked of it.
    pub open spec fn expected_length(self) -> Option<usize> {
        match self.length_check {
            ReadLengthCheck::Fixed(n) => Some(n),
            ReadLengthCheck::Auto => self.read_length,
            ReadLengthCheck::Skip => None,
        }
    }

    /// The state after one more record. A record that failed to decode
    /// leaves the state as it is. A decoded record is counted; the first
    /// one sets the read length; one whose length is not the expected one
    /// adds an error.
    pub open spec fn after_record(
        self,
        record: Result<FastqRecord, String>,
        file_id: Seq<char>,
    ) -> ProcessorState {
        match record {
            Err(_) => self,
            Ok(rec) => ProcessorState {
                length_check: self.length_check,
                num_records: (self.num_records + 1) as u64,
                read_length: if self.read_length is None {
                    Some(rec.sequence_length)
                } else {
                    self.read_length
                },
                errors: match self.expected_length() {
                    Some(n) => if n != rec.sequence_length {
                        self.errors.push(
                            length_error_message(
                                file_id,
                                (self.num_records + 1) as nat,
                                n as nat,
                                rec.sequence_length as nat,
                            ),
                        )
                    } else {
                        self.errors
                    },
                    None => self.errors,
                },
            },
        }
    }

    /// Whether nothing is held against the file so far.
    pub open spec fn is_ok(self) -> bool {
        self.errors.len() == 0
    }

    /// The statistics of the records decoded so far: none before the first.
    pub open spec fn stats(self) -> Option<Stats> {
        if self.num_records > 0 {
            Some(Stats { num_records: self.num_records, read_length: self.read_length })
        } else {
            None
        }
    }

    /// What the file is reported with when the scan ends in this state. A
    /// file without records, and with nothing else held against it, is
    /// reported as empty.
    pub open spec fn finalized(self) -> CheckOutcomeView {
        CheckOutcomeView {
            stats: self.stats(),
            errors: if self.num_records == 0 && self.is_ok() {
                seq![empty_file_message()]
            } else {
                self.errors
            },
            warnings: Seq::empty(),
        }
    }
}

/// The validator of one short-read file, fed record by record.
pub struct FastqCheckProcessor {
    length_check: ReadLengthCheck,
    num_records: u64,
    read_length: Option<usize>,
    errors: Vec<String>,
}

impl View for FastqCheckProcessor {
    type V = ProcessorState;

    closed spec fn view(&self) -> ProcessorState {
        ProcessorState {
            length_check: self.length_check,
            num_records: self.num_records,
            read_length: self.read_length,
            errors: texts(self.errors@),
        }
    }
}

fn parse_error(file_id: &str, index: u64, cause: &str) -> (message: String)
    ensures
        message@ == parse_error_message(file_id@, index as nat, cause@),
{
    let mut message = String::from_str("Failed to parse ");
    message.append(file_id);
    message.append(" record #");
    message.append(decimal_string(index).as_str());
    message.append(": ");
    message.append(cause);
    message
}

fn length_error(file_id: &str, index: u64, expected: usize, found: usize) -> (message: String)
    ensures
        message@ == length_error_message(
            file_id@,
            index as nat,
            expected as nat,
            found as nat,
        ),
{
    let mut message = String::from_str("Found inconsistent read length at ");
    message.append(file_id);
    message.append(" #");
    message.append(decimal_string(index).as_str());
    message.append(": expected ");
    message.append(decimal_string(expected as u64).as_str());
    message.append(", got ");
    message.append(decimal_string(found as u64).as_str());
    message.append(".");
    message
}

impl FastqCheckProcessor {
    /// A validator that has seen no record yet.
    pub fn new(length_check: ReadLengthCheck) -> (processor: Self)
        ensures
            processor@ == ProcessorState::initial(length_check),
    {
        let processor = FastqCheckProcessor {
            length_check,
            num_records: 0,
            read_length: None,
            errors: Vec::new(),
        };
        assert(texts(processor.errors@) =~= Seq::empty());
        processor
    }

    /// Whether nothing is held against the file so far. Once this is
    /// false, no further record is to be fed.
    pub fn is_ok(&self) -> (ok: bool)
        ensures
            ok == self@.is_ok(),
    {
        self.errors.len() == 0
    }

    /// Takes the next record of the file, as the decoder gave it: the
    /// record, or the cause for which it could not be decoded. `file_id`
    /// names the file in messages.
    ///
    /// A record that could not be decoded comes back as the error that
    /// aborts the scan, and leaves the validator unchanged.
    pub fn process_record(&mut self, record: &Result<FastqRecord, String>, file_id: &str) -> (res:
        Result<(), String>)
        requires
            old(self)@.num_records < u64::MAX,
        ensures
            final(self)@ == old(self)@.after_record(*record, file_id@),
            match res {
                Ok(_) => *record is Ok,
                Err(message) => *record matches Err(cause) && message@ == parse_error_message(
                    file_id@,
                    (old(self)@.num_records + 1) as nat,
                    cause@,
                ),
            },
    {
        match record {
            Err(cause) => Err(parse_error(file_id, self.num_records + 1, cause.as_str())),
            Ok(rec) => {
                let index = self.num_records + 1;
                let expected = match self.length_check {
                    ReadLengthCheck::Fixed(n) => Some(n),
                    ReadLengthCheck::Auto => self.read_length,
                    ReadLengthCheck::Skip => None,
                };
                self.num_records = index;
                if self.read_length.is_none() {
                    self.read_length = Some(rec.sequence_length);
                }
                match expected {
                    Some(n) => {
                        if n != rec.sequence_length {
                            let ghost before = self.errors@;
                            self.errors.push(length_error(file_id, index, n, rec.sequence_length));
                            assert(texts(self.errors@) =~= texts(before).push(
                                length_error_message(
                                    file_id@,
                                    index as nat,
                                    n as nat,
                                    rec.sequence_length as nat,
                                ),
                            ));
                        }
                    },
                    None => {},
                }
                Ok(())
            },
        }
    }

    /// The statistics of the records decoded so far.
    pub fn stats(&self) -> (stats: Option<Stats>)
        ensures
            stats == self@.stats(),
    {
        if self.num_records > 0 {
            Some(Stats { num_records: self.num_records, read_length: self.read_length })
        } else {
            None
        }
    }

    /// Ends the scan: what the file is reported with.
    pub fn finalize(self) -> (outcome: CheckOutcome)
        ensures
            outcome@ == self@.finalized(),
    {
        let stats = self.stats();
        let mut errors = self.errors;
        if self.num_records == 0 && errors.len() == 0 {
            errors.push(String::from_str("File is empty. Expected at least one record."));
            assert(texts(errors@) =~= seq![empty_file_message()]);
        }
        let outcome = CheckOutcome { stats, errors, warnings: Vec::new() };
        assert(texts(outcome.warnings@) =~= Seq::empty());
        outcome
    }
}

/// The length that every record of a file must have, if the policy asks
/// for one: the fixed length, or under `Auto` the length of the first
/// record.
pub open spec fn required_length(
    check: ReadLengthCheck,
    records: Seq<Result<FastqRecord, String>>,
) -> Option<usize> {
    match check {
        ReadLengthCheck::Fixed(n) => Some(n),
        ReadLengthCheck::Auto => if records.len() > 0 {
            match records[0] {
                Ok(first) => Some(first.sequence_length),
                Err(_) => None,
            }
        } else {
            None
        },
        ReadLengthCheck::Skip => None,
    }
}

/// Whether record `i` ends the scan: it could not be decoded, or its
/// sequence has another length than the file's records must have.
pub open spec fn faulty(
    check: ReadLengthCheck,
    records: Seq<Result<FastqRecord, String>>,
    i: int,
) -> bool {
    match records[i] {
        Err(_) => true,
        Ok(rec) => match required_length(check, records) {
            Some(n) => rec.sequence_length != n,
            None => false,
        },
    }
}

/// The index of the first faulty record at or after `from`, or the number
/// of records if there is none.
pub open spec fn first_fault(
    check: ReadLengthCheck,
    records: Seq<Result<FastqRecord, String>>,
    from: int,
) -> int
    decreases records.len() - from,
{
    if from >= records.len() {
        records.len() as int
    } else if faulty(check, records, from) {
        from
    } else {
        first_fault(check, records, from + 1)
    }
}

/// The state of a validator that has taken the first `count` records of a
/// file, none of them faulty.
pub open spec fn clean_state(
    check: ReadLengthCheck,
    records: Seq<Result<FastqRecord, String>>,
    count: int,
) -> ProcessorState {
    ProcessorState {
        length_check: check,
        num_records: count as u64,
        read_length: if count > 0 {
            match records[0] {
                Ok(first) => Some(first.sequence_length),
                Err(_) => None,
            }
        } else {
            None
        },
        errors: Seq::empty(),
    }
}

/// The result of scanning a whole file. The scan runs up to the first
/// faulty record. If that record could not be decoded, the scan is
/// aborted with its error and the statistics of the records before it. If
/// its length is wrong, it is the last record counted and its error is
/// the file's. Without a faulty record every record is counted.
pub open spec fn scan_single(
    check: ReadLengthCheck,
    records: Seq<Result<FastqRecord, String>>,
    file_id: Seq<char>,
) -> Result<CheckOutcomeView, ScanAbortView> {
    let k = first_fault(check, records, 0);
    let before = clean_state(check, records, k);
    if k < records.len() {
        match records[k] {
            Err(cause) => Err(
                ScanAbortView {
                    message: parse_error_message(file_id, (k + 1) as nat, cause@),
                    stats: before.stats(),
                },
            ),
            Ok(_) => Ok(before.after_record(records[k], file_id).finalized()),
        }
    } else {
        Ok(before.finalized())
    }
}

/// Where the first faulty record lies.
pub proof fn lemma_first_fault(
    check: ReadLengthCheck,
    records: Seq<Result<FastqRecord, String>>,
    from: int,
)
    requires
        0 <= from <= records.len(),
    ensures
        from <= first_fault(check, records, from) <= records.len(),
        forall|i: int| from <= i < first_fault(check, records, from) ==> !faulty(check, records, i),
        first_fault(check, records, from) < records.len() ==> faulty(
            check,
            records,
            first_fault(check, records, from),
        ),
    decreases records.len() - from,
{
    if from < records.len() && !faulty(check, records, from) {
        lemma_first_fault(check, records, from + 1);
    }
}

/// The first faulty record is the one that no faulty record precedes.
pub proof fn lemma_first_fault_is(
    check: ReadLengthCheck,
    records: Seq<Result<FastqRecord, String>>,
    k: int,
)
    requires
        0 <= k <= records.len(),
        forall|i: int| 0 <= i < k ==> !faulty(check, records, i),
        k < records.len() ==> faulty(check, records, k),
    ensures
        first_fault(check, records, 0) == k,
{
    lemma_first_fault(check, records, 0);
}

/// No faulty record lies before the first.
pub proof fn lemma_first_fault_after(
    check: ReadLengthCheck,
    records: Seq<Result<FastqRecord, String>>,
    k: int,
)
    requires
        0 <= k <= records.len(),
        forall|i: int| 0 <= i < k ==> !faulty(check, records, i),
    ensures
        first_fault(check, records, 0) >= k,
{
    lemma_first_fault(check, records, 0);
}

/// One record more, on top of a clean prefix.
pub proof fn lemma_clean_step(
    check: ReadLengthCheck,
    records: Seq<Result<FastqRecord, String>>,
    file_id: Seq<char>,
    k: int,
)
    requires
        0 <= k < records.len(),
        k < u64::MAX,
        forall|i: int| 0 <= i < k ==> !faulty(check, records, i),
        records[k] is Ok,
    ensures
        !faulty(check, records, k) ==> clean_state(check, records, k).after_record(
            records[k],
            file_id,
        ) == clean_state(check, records, k + 1),
        clean_state(check, records, k).after_record(records[k], file_id).is_ok() == !faulty(
            check,
            records,
            k,
        ),
{
    if k > 0 {
        assert(!faulty(check, records, 0));
    }
}

/// Scans a whole file, given as the records its decoder yields in order.
pub fn scan_single_fastq(
    length_check: ReadLengthCheck,
    records: &Vec<Result<FastqRecord, String>>,
    file_id: &str,
) -> (scan: Result<CheckOutcome, ScanAbort>)
    ensures
        scan_view(scan) == scan_single(length_check, records@, file_id@),
{
    let mut processor = FastqCheckProcessor::new(length_check);
    let mut i: usize = 0;
    while i < records.len()
        invariant
            i <= records.len(),
            processor@ == clean_state(length_check, records@, i as int),
            forall|j: int| 0 <= j < i ==> !faulty(length_check, records@, j),
        decreases records.len() - i,
    {
        match processor.process_record(&records[i], file_id) {
            Err(message) => {
                proof {
                    lemma_first_fault_is(length_check, records@, i as int);
                }
                return Err(ScanAbort { message, stats: processor.stats() });
            },
            Ok(_) => {
                proof {
                    lemma_clean_step(length_check, records@, file_id@, i as int);
                }
                if !processor.is_ok() {
                    proof {
                        lemma_first_fault_is(length_check, records@, i as int);
                    }
                    return Ok(processor.finalize());
                }
            },
        }
        i += 1;
    }
    proof {
        lemma_first_fault_is(length_check, records@, records.len() as int);
    }
    Ok(processor.finalize())
}

/// Checks one short-read file: scans its records and reports the file.
/// `records` are the records that the decoder yields, in order; `hasher`
/// is the handle of the file's hash as it was given back after the scan,
/// or `None` if the stream still holds it.
pub fn check_single_fastq(
    path: &str,
    length_check: ReadLengthCheck,
    records: &Vec<Result<FastqRecord, String>>,
    hasher: Option<SharedHashingReader>,
) -> (report: FileReport)
    ensures
        report@ == file_report(
            path@,
            scan_single(length_check, records@, "record"@),
            hasher_view(hasher),
        ),
{
    check_file(path, scan_single_fastq(length_check, records, "record"), hasher)
}

/// The sequence length of record `i`, if the record was decoded.
pub open spec fn decoded_length(records: Seq<Result<FastqRecord, String>>, i: int) -> Option<
    usize,
> {
    match records[i] {
        Ok(rec) => Some(rec.sequence_length),
        Err(_) => None,
    }
}

/// Under `Auto` a file passes exactly if it has a record, every record
/// decodes and every record has the length of the first. Under `Fixed(n)`
/// the first record must have length `n` as well. Under `Skip` lengths do
/// not count.
pub proof fn law_length_policy(
    check: ReadLengthCheck,
    records: Seq<Result<FastqRecord, String>>,
    file_id: Seq<char>,
)
    requires
        records.len() < u64::MAX,
    ensures
        (scan_single(check, records, file_id) matches Ok(outcome) && outcome.errors.len() == 0)
            <==> {
            &&& records.len() > 0
            &&& forall|i: int|
                0 <= i < records.len() ==> #[trigger] decoded_length(records, i) is Some
            &&& check !is Skip ==> forall|i: int|
                0 <= i < records.len() ==> #[trigger] decoded_length(records, i)
                    == decoded_length(records, 0)
            &&& check matches ReadLengthCheck::Fixed(n) ==> decoded_length(records, 0) == Some(n)
        },
{
    let k = first_fault(check, records, 0);
    lemma_first_fault(check, records, 0);
    if k < records.len() {
        assert(faulty(check, records, k));
        if records[k] is Ok {
            lemma_clean_step(check, records, file_id, k);
            if k > 0 {
                assert(!faulty(check, records, 0));
            }
            assert(decoded_length(records, k) is Some);
            assert(decoded_length(records, 0) is Some);
        } else {
            assert(decoded_length(records, k) is None);
        }
    } else if records.len() > 0 {
        assert(!faulty(check, records, 0));
        assert forall|i: int| 0 <= i < records.len() implies #[trigger] decoded_length(
            records,
            i,
        ) is Some by {
            assert(!faulty(check, records, i));
        }
        if check !is Skip {
            assert forall|i: int| 0 <= i < records.len() implies #[trigger] decoded_length(
                records,
                i,
            ) == decoded_length(records, 0) by {
                assert(!faulty(check, records, i));
            }
        }
    }
}

/// A file without a decodable record is reported as an error and without
/// statistics, whatever its length policy and whatever became of its hash.
pub proof fn law_no_record_is_error(
    check: ReadLengthCheck,
    records: Seq<Result<FastqRecord, String>>,
    file_id: Seq<char>,
    path: Seq<char>,
    hashing: Option<HashingState>,
)
    requires
        records.len() == 0 || records[0] is Err,
    ensures
        !file_report(path, scan_single(check, records, file_id), hashing).is_ok(),
        file_report(path, scan_single(check, records, file_id), hashing).stats is None,
{
    if records.len() > 0 {
        assert(faulty(check, records, 0));
    }
}

/// A file is reported with statistics exactly if its first record was
/// decoded.
pub proof fn law_stats_need_a_record(
    check: ReadLengthCheck,
    records: Seq<Result<FastqRecord, String>>,
    file_id: Seq<char>,
    path: Seq<char>,
    hashing: Option<HashingState>,
)
    requires
        records.len() < u64::MAX,
    ensures
        file_report(path, scan_single(check, records, file_id), hashing).stats is Some <==> (
        records.len() > 0 && records[0] is Ok),
{
    lemma_first_fault(check, records, 0);
    if records.len() > 0 && records[0] is Err {
        assert(faulty(check, records, 0));
    }
}

/// One step of the walk over the two mates of a pair: a record of each,
/// or a record of the mate that outlasts the other.
#[derive(Debug)]
pub enum PairStep {
    Both(Result<FastqRecord, String>, Result<FastqRecord, String>),
    Left(Result<FastqRecord, String>),
    Right(Result<FastqRecord, String>),
}

/// The steps of a walk over two record streams: both streams are taken
/// together for as long as both last, then the rest of the longer alone.
pub open spec fn zip_longest(
    first: Seq<Result<FastqRecord, String>>,
    second: Seq<Result<FastqRecord, String>>,
) -> Seq<PairStep> {
    Seq::new(
        if first.len() >= second.len() {
            first.len()
        } else {
            second.len()
        },
        |i: int|
            if i < first.len() && i < second.len() {
                PairStep::Both(first[i], second[i])
            } else if i < first.len() {
                PairStep::Left(first[i])
            } else {
                PairStep::Right(second[i])
            },
    )
}

/// `Itertools::zip_longest` of the `itertools` crate on the records of two
/// mates, collected. The crate documents that it yields `Both` as long as
/// neither side is exhausted, then `Left` for what remains of the first
/// side or `Right` for what remains of the second, and each item in its
/// place; this is what [`zip_longest`] states.
#[verifier::external_body]
fn zip_longest_records(
    first: Vec<Result<FastqRecord, String>>,
    second: Vec<Result<FastqRecord, String>>,
) -> (steps: Vec<PairStep>)
    ensures
        steps@ == zip_longest(first@, second@),
{
    itertools::Itertools::zip_longest(first.into_iter(), second)
        .map(|step| match step {
            itertools::EitherOrBoth::Both(a, b) => PairStep::Both(a, b),
            itertools::EitherOrBoth::Left(a) => PairStep::Left(a),
            itertools::EitherOrBoth::Right(b) => PairStep::Right(b),
        })
        .collect()
}

/// What the validator of a pair knows in the middle of a walk.
pub struct PairState {
    pub fq1: ProcessorState,
    pub fq2: ProcessorState,
    pub pair_errors: Seq<Seq<char>>,
}

impl PairState {
    /// The state before the first step.
    pub open spec fn initial(
        fq1_length_check: ReadLengthCheck,
        fq2_length_check: ReadLengthCheck,
    ) -> PairState {
        PairState {
            fq1: ProcessorState::initial(fq1_length_check),
            fq2: ProcessorState::initial(fq2_length_check),
            pair_errors: Seq::empty(),
        }
    }

    /// The error with which `step` aborts the walk, if one of its records
    /// could not be decoded. The first mate is looked at first.
    pub open spec fn failure(self, step: PairStep) -> Option<Seq<char>> {
        match step {
            PairStep::Both(Err(cause), _) | PairStep::Left(Err(cause)) => Some(
                parse_error_message("R1"@, (self.fq1.num_records + 1) as nat, cause@),
            ),
            PairStep::Both(Ok(_), Err(cause)) | PairStep::Right(Err(cause)) => Some(
                parse_error_message("R2"@, (self.fq2.num_records + 1) as nat, cause@),
            ),
            _ => None,
        }
    }

    /// The state after `step`. Each mate takes its record by its own
    /// length policy; a record that could not be decoded ends the step
    /// where it stands. A record of one mate alone adds the pair-level
    /// error of mismatched counts.
    pub open spec fn after_step(self, step: PairStep) -> PairState {
        match step {
            PairStep::Both(a, b) => if a is Err {
                self
            } else {
                PairState {
                    fq1: self.fq1.after_record(a, "R1"@),
                    fq2: self.fq2.after_record(b, "R2"@),
                    pair_errors: self.pair_errors,
                }
            },
            PairStep::Left(a) => if a is Err {
                self
            } else {
                PairState {
                    fq1: self.fq1.after_record(a, "R1"@),
                    fq2: self.fq2,
                    pair_errors: self.pair_errors.push(r1_longer_message()),
                }
            },
            PairStep::Right(b) => if b is Err {
                self
            } else {
                PairState {
                    fq1: self.fq1,
                    fq2: self.fq2.after_record(b, "R2"@),
                    pair_errors: self.pair_errors.push(r2_longer_message()),
                }
            },
        }
    }

    /// Whether the walk goes on: nothing is held against either mate or
    /// against the pair.
    pub open spec fn is_ok(self) -> bool {
        self.fq1.is_ok() && self.fq2.is_ok() && self.pair_errors.len() == 0
    }

    /// What the pair is reported with when the walk ends in this state.
    pub open spec fn finalized(self) -> PairOutcomeView {
        PairOutcomeView {
            fq1: self.fq1.finalized(),
            fq2: self.fq2.finalized(),
            pair_errors: self.pair_errors,
        }
    }

    /// What is left of the walk when `message` aborts it in this state.
    pub open spec fn aborted(self, message: Seq<char>) -> PairAbortView {
        PairAbortView {
            message: message,
            fq1_stats: self.fq1.stats(),
            fq2_stats: self.fq2.stats(),
        }
    }
}

/// The outcome of a walk that was not aborted: that of each mate, and the
/// pair-level errors.
pub struct PairOutcomeView {
    pub fq1: CheckOutcomeView,
    pub fq2: CheckOutcomeView,
    pub pair_errors: Seq<Seq<char>>,
}

/// A walk over a pair that was cut short because a record of either mate
/// could not be decoded.
#[derive(Debug)]
pub struct PairAbort {
    /// Names the mate and the record at which the walk failed, and the
    /// cause.
    pub message: String,
    /// The records of each mate that were decoded before the failure.
    pub fq1_stats: Option<Stats>,
    pub fq2_stats: Option<Stats>,
}

/// A [`PairAbort`] as plain text and numbers.
pub struct PairAbortView {
    pub message: Seq<char>,
    pub fq1_stats: Option<Stats>,
    pub fq2_stats: Option<Stats>,
}

impl View for PairAbort {
    type V = PairAbortView;

    open spec fn view(&self) -> PairAbortView {
        PairAbortView {
            message: self.message@,
            fq1_stats: self.fq1_stats,
            fq2_stats: self.fq2_stats,
        }
    }
}

/// The result of a walk as plain text and numbers.
pub open spec fn pair_scan_view(
    scan: Result<(CheckOutcome, CheckOutcome, Vec<String>), PairAbort>,
) -> Result<PairOutcomeView, PairAbortView> {
    match scan {
        Ok((fq1, fq2, pair_errors)) => Ok(
            PairOutcomeView { fq1: fq1@, fq2: fq2@, pair_errors: texts(pair_errors@) },
        ),
        Err(abort) => Err(abort@),
    }
}

/// The validator of a pair, fed step by step.
pub struct PairedFastqProcessor {
    fq1: FastqCheckProcessor,
    fq2: FastqCheckProcessor,
    pair_errors: Vec<String>,
}

impl View for PairedFastqProcessor {
    type V = PairState;

    closed spec fn view(&self) -> PairState {
        PairState { fq1: self.fq1@, fq2: self.fq2@, pair_errors: texts(self.pair_errors@) }
    }
}

impl PairedFastqProcessor {
    /// A validator that has taken no step yet.
    pub fn new(fq1_length_check: ReadLengthCheck, fq2_length_check: ReadLengthCheck) -> (processor:
        Self)
        ensures
            processor@ == PairState::initial(fq1_length_check, fq2_length_check),
    {
        let processor = PairedFastqProcessor {
            fq1: FastqCheckProcessor::new(fq1_length_check),
            fq2: FastqCheckProcessor::new(fq2_length_check),
            pair_errors: Vec::new(),
        };
        assert(texts(processor.pair_errors@) =~= Seq::empty());
        processor
    }

    /// Takes the next step of the walk. The answer is whether the walk
    /// goes on, or the error that aborts it.
    pub fn step(&mut self, step: &PairStep) -> (res: Result<bool, String>)
        requires
            old(self)@.fq1.num_records < u64::MAX,
            old(self)@.fq2.num_records < u64::MAX,
        ensures
            final(self)@ == old(self)@.after_step(*step),
            match res {
                Ok(go_on) => old(self)@.failure(*step) is None && go_on == final(self)@.is_ok(),
                Err(message) => old(self)@.failure(*step) == Some(message@),
            },
    {
        match step {
            PairStep::Both(a, b) => {
                match self.fq1.process_record(a, "R1") {
                    Err(message) => {
                        return Err(message);
                    },
                    Ok(_) => {},
                }
                match self.fq2.process_record(b, "R2") {
                    Err(message) => {
                        return Err(message);
                    },
                    Ok(_) => {},
                }
            },
            PairStep::Left(a) => {
                match self.fq1.process_record(a, "R1") {
                    Err(message) => {
                        return Err(message);
                    },
                    Ok(_) => {},
                }
                let ghost before = self.pair_errors@;
                self.pair_errors.push(
                    String::from_str("Mismatched read counts: R1 has more records than R2."),
                );
                assert(texts(self.pair_errors@) =~= texts(before).push(r1_longer_message()));
            },
            PairStep::Right(b) => {
                match self.fq2.process_record(b, "R2") {
                    Err(message) => {
                        return Err(message);
                    },
                    Ok(_) => {},
                }
                let ghost before = self.pair_errors@;
                self.pair_errors.push(
                    String::from_str("Mismatched read counts: R2 has more records than R1."),
                );
                assert(texts(self.pair_errors@) =~= texts(before).push(r2_longer_message()));
            },
        }
        Ok(self.fq1.is_ok() && self.fq2.is_ok() && self.pair_errors.len() == 0)
    }

    /// Ends the walk: the outcome of each mate, and the pair-level errors.
    pub fn finalize(self) -> (outcome: (CheckOutcome, CheckOutcome, Vec<String>))
        ensures
            pair_scan_view(Ok(outcome)) == Ok::<PairOutcomeView, PairAbortView>(
                self@.finalized(),
            ),
    {
        (self.fq1.finalize(), self.fq2.finalize(), self.pair_errors)
    }

    /// Ends a walk that `message` has aborted.
    pub fn abort(self, message: String) -> (abort: PairAbort)
        ensures
            abort@ == self@.aborted(message@),
    {
        PairAbort { message, fq1_stats: self.fq1.stats(), fq2_stats: self.fq2.stats() }
    }
}

/// The smaller of two numbers.
pub open spec fn min2(a: int, b: int) -> int {
    if a <= b {
        a
    } else {
        b
    }
}

/// The step at which the walk over a pair ends: the first at which a
/// record of either mate is faulty, and at the latest the one after the
/// last record of the shorter mate.
pub open spec fn pair_stop(
    fq1_length_check: ReadLengthCheck,
    fq2_length_check: ReadLengthCheck,
    first: Seq<Result<FastqRecord, String>>,
    second: Seq<Result<FastqRecord, String>>,
) -> int {
    min2(
        min2(first_fault(fq1_length_check, first, 0), first_fault(fq2_length_check, second, 0)),
        min2(first.len() as int, second.len() as int),
    )
}

/// The result of walking a whole pair. Up to the step at which the walk
/// ends, each mate has taken as many records as there were steps, none of
/// them faulty. The last step is then taken, if there is a record for it:
/// of both mates together, or of the mate that outlasts the other.
pub open spec fn scan_pair(
    fq1_length_check: ReadLengthCheck,
    fq2_length_check: ReadLengthCheck,
    first: Seq<Result<FastqRecord, String>>,
    second: Seq<Result<FastqRecord, String>>,
) -> Result<PairOutcomeView, PairAbortView> {
    let stop = pair_stop(fq1_length_check, fq2_length_check, first, second);
    let before = PairState {
        fq1: clean_state(fq1_length_check, first, stop),
        fq2: clean_state(fq2_length_check, second, stop),
        pair_errors: Seq::empty(),
    };
    let steps = zip_longest(first, second);
    if stop < steps.len() {
        match before.failure(steps[stop]) {
            Some(message) => Err(before.after_step(steps[stop]).aborted(message)),
            None => Ok(before.after_step(steps[stop]).finalized()),
        }
    } else {
        Ok(before.finalized())
    }
}

/// Where the walk over a pair ends.
pub proof fn lemma_pair_stop(
    fq1_length_check: ReadLengthCheck,
    fq2_length_check: ReadLengthCheck,
    first: Seq<Result<FastqRecord, String>>,
    second: Seq<Result<FastqRecord, String>>,
    k: int,
)
    requires
        0 <= k <= first.len(),
        k <= second.len(),
        forall|i: int| 0 <= i < k ==> !faulty(fq1_length_check, first, i),
        forall|i: int| 0 <= i < k ==> !faulty(fq2_length_check, second, i),
        k == first.len() || k == second.len() || faulty(fq1_length_check, first, k) || faulty(
            fq2_length_check,
            second,
            k,
        ),
    ensures
        pair_stop(fq1_length_check, fq2_length_check, first, second) == k,
{
    lemma_first_fault_after(fq1_length_check, first, k);
    lemma_first_fault_after(fq2_length_check, second, k);
    if k < first.len() && k < second.len() {
        if faulty(fq1_length_check, first, k) {
            lemma_first_fault_is(fq1_length_check, first, k);
        } else {
            lemma_first_fault_is(fq2_length_check, second, k);
        }
    }
}

/// Walks the two mates of a pair in lockstep, each given as the records
/// its decoder yields in order.
pub fn process_paired_readers(
    records1: Vec<Result<FastqRecord, String>>,
    records2: Vec<Result<FastqRecord, String>>,
    fq1_length_check: ReadLengthCheck,
    fq2_length_check: ReadLengthCheck,
) -> (scan: Result<(CheckOutcome, CheckOutcome, Vec<String>), PairAbort>)
    ensures
        pair_scan_view(scan) == scan_pair(
            fq1_length_check,
            fq2_length_check,
            records1@,
            records2@,
        ),
{
    let ghost first = records1@;
    let ghost second = records2@;
    let steps = zip_longest_records(records1, records2);
    let mut processor = PairedFastqProcessor::new(fq1_length_check, fq2_length_check);
    let mut i: usize = 0;
    while i < steps.len()
        invariant
            first == records1@,
            second == records2@,
            steps@ == zip_longest(first, second),
            i <= steps.len(),
            i <= first.len(),
            i <= second.len(),
            processor@ == (PairState {
                fq1: clean_state(fq1_length_check, first, i as int),
                fq2: clean_state(fq2_length_check, second, i as int),
                pair_errors: Seq::empty(),
            }),
            forall|j: int| 0 <= j < i ==> !faulty(fq1_length_check, first, j),
            forall|j: int| 0 <= j < i ==> !faulty(fq2_length_check, second, j),
        decreases steps.len() - i,
    {
        proof {
            if i < first.len() && first[i as int] is Ok {
                lemma_clean_step(fq1_length_check, first, "R1"@, i as int);
            }
            if i < second.len() && second[i as int] is Ok {
                lemma_clean_step(fq2_length_check, second, "R2"@, i as int);
            }
        }
        match processor.step(&steps[i]) {
            Err(message) => {
                proof {
                    lemma_pair_stop(fq1_length_check, fq2_length_check, first, second, i as int);
                }
                return Err(processor.abort(message));
            },
            Ok(go_on) => {
                if !go_on {
                    proof {
                        lemma_pair_stop(
                            fq1_length_check,
                            fq2_length_check,
                            first,
                            second,
                            i as int,
                        );
                    }
                    return Ok(processor.finalize());
                }
            },
        }
        i += 1;
    }
    proof {
        lemma_pair_stop(fq1_length_check, fq2_length_check, first, second, i as int);
    }
    Ok(processor.finalize())
}

/// If the first mate has more records than the second, the pair carries
/// the one error of mismatched counts, and the second mate is reported as
/// if it had been scanned alone, to its end. This holds where the walk
/// gets that far: no record of either mate is faulty before the second
/// mate ends, and the next record of the first mate decodes.
pub proof fn law_first_mate_longer(
    fq1_length_check: ReadLengthCheck,
    fq2_length_check: ReadLengthCheck,
    first: Seq<Result<FastqRecord, String>>,
    second: Seq<Result<FastqRecord, String>>,
)
    requires
        second.len() < first.len(),
        forall|i: int| 0 <= i < second.len() ==> !faulty(fq1_length_check, first, i),
        forall|i: int| 0 <= i < second.len() ==> !faulty(fq2_length_check, second, i),
        first[second.len() as int] is Ok,
    ensures
        scan_pair(fq1_length_check, fq2_length_check, first, second) matches Ok(outcome)
            && outcome.pair_errors == seq![r1_longer_message()] && scan_single(
            fq2_length_check,
            second,
            "R2"@,
        ) == Ok::<CheckOutcomeView, ScanAbortView>(outcome.fq2),
{
    lemma_pair_stop(fq1_length_check, fq2_length_check, first, second, second.len() as int);
    lemma_first_fault_is(fq2_length_check, second, second.len() as int);
    assert(Seq::<Seq<char>>::empty().push(r1_longer_message()) =~= seq![r1_longer_message()]);
}

/// If the second mate has more records than the first, the pair carries
/// the one error of mismatched counts, and the first mate is reported as
/// if it had been scanned alone, to its end. This holds where the walk
/// gets that far: no record of either mate is faulty before the first
/// mate ends, and the next record of the second mate decodes.
pub proof fn law_second_mate_longer(
    fq1_length_check: ReadLengthCheck,
    fq2_length_check: ReadLengthCheck,
    first: Seq<Result<FastqRecord, String>>,
    second: Seq<Result<FastqRecord, String>>,
)
    requires
        first.len() < second.len(),
        forall|i: int| 0 <= i < first.len() ==> !faulty(fq1_length_check, first, i),
        forall|i: int| 0 <= i < first.len() ==> !faulty(fq2_length_check, second, i),
        second[first.len() as int] is Ok,
    ensures
        scan_pair(fq1_length_check, fq2_length_check, first, second) matches Ok(outcome)
            && outcome.pair_errors == seq![r2_longer_message()] && scan_single(
            fq1_length_check,
            first,
            "R1"@,
        ) == Ok::<CheckOutcomeView, ScanAbortView>(outcome.fq1),
{
    lemma_pair_stop(fq1_length_check, fq2_length_check, first, second, first.len() as int);
    lemma_first_fault_is(fq1_length_check, first, first.len() as int);
    assert(Seq::<Seq<char>>::empty().push(r2_longer_message()) =~= seq![r2_longer_message()]);
}

} // verus!
