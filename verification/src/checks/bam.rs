//! The validator of aligned-read containers.

use vstd::prelude::*;
use crate::checker::{FileReport, Stats};
use crate::checks::common::{
    check_file, file_report, hasher_view, scan_view, CheckOutcome, CheckOutcomeView, ScanAbort,
    ScanAbortView,
};
use crate::sha256::SharedHashingReader;
use crate::text::{decimal, decimal_string, texts};

verus! {

/// An aligned-container job: one file.
#[derive(Debug)]
pub struct BamCheckJob {
    pub path: String,
    /// Declared size in bytes, for progress totals only.
    pub size: u64,
}

/// What the validator reads of a container's header: how many entries of
/// each kind it carries.
#[derive(Debug, Copy, Clone, PartialEq, Eq, Structural)]
pub struct BamHeader {
    pub reference_sequences: usize,
    pub read_groups: usize,
    pub programs: usize,
    pub comments: usize,
}

impl BamHeader {
    /// Whether the header carries anything at all.
    pub open spec fn has_content(self) -> bool {
        self.reference_sequences != 0 || self.read_groups != 0 || self.programs != 0
            || self.comments != 0
    }
}

/// The kind of an alignment operation.
#[derive(Debug, Copy, Clone, PartialEq, Eq, Structural)]
pub enum CigarKind {
    Match,
    Insertion,
    Deletion,
    Skip,
    SoftClip,
    HardClip,
    Pad,
    SequenceMatch,
    SequenceMismatch,
}

/// What the validator reads of a decoded alignment record.
#[derive(Debug)]
pub struct BamRecord {
    /// The read name, empty where the record has none.
    pub name: String,
    /// The flag bits of the record.
    pub flags: u16,
    /// The kinds of the record's operations in order, `None` for an
    /// operation that could not be decoded.
    pub cigar: Vec<Option<CigarKind>>,
}

/// The two observations that are reported as warnings.
#[derive(Debug, Copy, Clone, PartialEq, Eq, Structural)]
pub enum Finding {
    /// A record flagged as a secondary alignment.
    Secondary,
    /// A record that is not secondary and has a hard-clip operation.
    HardClip,
}

/// Whether flag bits mark a secondary alignment: bit `0x100` is set.
pub open spec fn secondary_flag_set(flags: u16) -> bool {
    flags & 0x100 != 0
}

/// Whether a list of operations holds a hard clip.
pub open spec fn has_hard_clip(cigar: Seq<Option<CigarKind>>) -> bool {
    exists|i: int| 0 <= i < cigar.len() && cigar[i] == Some(CigarKind::HardClip)
}

/// Whether a record shows a finding.
pub open spec fn shows(finding: Finding, record: BamRecord) -> bool {
    match finding {
        Finding::Secondary => secondary_flag_set(record.flags),
        Finding::HardClip => !secondary_flag_set(record.flags) && has_hard_clip(record.cigar@),
    }
}

/// Whether record `i` was decoded and shows a finding.
pub open spec fn shows_at(
    finding: Finding,
    records: Seq<Result<BamRecord, String>>,
    i: int,
) -> bool {
    records[i] matches Ok(record) && shows(finding, record)
}

/// How many of the first `upto` records show a finding.
pub open spec fn count_of(
    finding: Finding,
    records: Seq<Result<BamRecord, String>>,
    upto: int,
) -> nat
    decreases upto,
{
    if upto <= 0 {
        0
    } else if shows_at(finding, records, upto - 1) {
        count_of(finding, records, upto - 1) + 1
    } else {
        count_of(finding, records, upto - 1)
    }
}

/// The index of the first of the first `upto` records that shows a
/// finding, or `upto` if none of them does.
pub open spec fn first_of(
    finding: Finding,
    records: Seq<Result<BamRecord, String>>,
    upto: int,
) -> int
    decreases upto,
{
    if upto <= 0 {
        0
    } else if first_of(finding, records, upto - 1) < upto - 1 {
        first_of(finding, records, upto - 1)
    } else if shows_at(finding, records, upto - 1) {
        upto - 1
    } else {
        upto
    }
}

/// The warning of a container that carries a header.
pub open spec fn header_message() -> Seq<char> {
    "Detected a header in BAM file, ensure it contains no private information!"@
}

/// The error of a container without records.
pub open spec fn empty_file_message() -> Seq<char> {
    "File is empty. Expected at least one record."@
}

/// The error of a header that could not be read.
pub open spec fn header_error_message(cause: Seq<char>) -> Seq<char> {
    "Failed to read BAM header: "@ + cause
}

/// The error of a record that could not be decoded. `index` counts
/// records from 1.
pub open spec fn parse_error_message(index: nat, cause: Seq<char>) -> Seq<char> {
    "Failed to parse record #"@ + decimal(index) + ": "@ + cause
}

/// The warning of a finding: how often it was made, and the number
/// (from 1) and name of the first record that showed it.
pub open spec fn finding_message(
    finding: Finding,
    count: nat,
    index: nat,
    name: Seq<char>,
) -> Seq<char> {
    "File contains "@ + decimal(count) + (match finding {
        Finding::Secondary => " secondary alignment(s). First detected at record #"@,
        Finding::HardClip =>
            " primary alignment(s) with hard-clipped bases. First detected at record #"@,
    }) + decimal(index) + " ('"@ + name + "')."@
}

/// What is known of one finding in the middle of a scan.
pub struct FindingState {
    /// Records that showed it so far.
    pub count: u64,
    /// Number (from 1) and name of the first record that showed it.
    pub first: Option<(u64, Seq<char>)>,
}

impl FindingState {
    /// The state after a record with the given number and name, which
    /// shows the finding or not.
    pub open spec fn after(self, shown: bool, index: u64, name: Seq<char>) -> FindingState {
        if shown {
            FindingState {
                count: (self.count + 1) as u64,
                first: if self.first is None {
                    Some((index, name))
                } else {
                    self.first
                },
            }
        } else {
            self
        }
    }

    /// The warning that the finding is reported with: none if it was
    /// never made.
    pub open spec fn warnings(self, finding: Finding) -> Seq<Seq<char>> {
        match self.first {
            Some((index, name)) => seq![
                finding_message(finding, self.count as nat, index as nat, name),
            ],
            None => Seq::empty(),
        }
    }
}

/// What the validator knows of its container in the middle of a scan.
pub struct BamState {
    pub header: BamHeader,
    /// Records decoded so far.
    pub num_records: u64,
    pub secondary: FindingState,
    pub hard_clip: FindingState,
}

impl BamState {
    /// The state before the first record.
    pub open spec fn initial(header: BamHeader) -> BamState {
        BamState {
            header: header,
            num_records: 0,
            secondary: FindingState { count: 0, first: None },
            hard_clip: FindingState { count: 0, first: None },
        }
    }

    /// The state after one more record. A record that failed to decode
    /// leaves the state as it is. A decoded record is counted, and so are
    /// the findings that it shows.
    pub open spec fn after_record(self, record: Result<BamRecord, String>) -> BamState {
        match record {
            Err(_) => self,
            Ok(rec) => {
                let index = (self.num_records + 1) as u64;
                BamState {
                    header: self.header,
                    num_records: index,
                    secondary: self.secondary.after(
                        shows(Finding::Secondary, rec),
                        index,
                        rec.name@,
                    ),
                    hard_clip: self.hard_clip.after(
                        shows(Finding::HardClip, rec),
                        index,
                        rec.name@,
                    ),
                }
            },
        }
    }

    /// The statistics of the records decoded so far: none before the first.
    pub open spec fn stats(self) -> Option<Stats> {
        if self.num_records > 0 {
            Some(Stats { num_records: self.num_records, read_length: None })
        } else {
            None
        }
    }

    /// The warnings of a container that has records: that of its header,
    /// if the header carries anything, then that of secondary alignments,
    /// then that of hard clips.
    pub open spec fn warnings(self) -> Seq<Seq<char>> {
        (if self.header.has_content() {
            seq![header_message()]
        } else {
            Seq::empty()
        }) + self.secondary.warnings(Finding::Secondary) + self.hard_clip.warnings(
            Finding::HardClip,
        )
    }

    /// What the container is reported with when the scan ends in this
    /// state. A container without records is an error and has no
    /// warnings.
    pub open spec fn finalized(self) -> CheckOutcomeView {
        if self.num_records == 0 {
            CheckOutcomeView {
                stats: None,
                errors: seq![empty_file_message()],
                warnings: Seq::empty(),
            }
        } else {
            CheckOutcomeView { stats: self.stats(), errors: Seq::empty(), warnings: self.warnings() }
        }
    }
}

/// `Flags::is_secondary` of the `noodles` crate, on the flags that
/// `Flags::from` makes of the bits: whether the bit `0x100` is set.
#[verifier::external_body]
fn is_secondary(flags: u16) -> (secondary: bool)
    ensures
        secondary == secondary_flag_set(flags),
{
    noodles::sam::alignment::record::Flags::from(flags).is_secondary()
}

/// Whether a list of operations holds a hard clip.
pub fn contains_hard_clip(cigar: &Vec<Option<CigarKind>>) -> (found: bool)
    ensures
        found == has_hard_clip(cigar@),
{
    let mut i: usize = 0;
    while i < cigar.len()
        invariant
            i <= cigar.len(),
            forall|j: int| 0 <= j < i ==> cigar@[j] != Some(CigarKind::HardClip),
        decreases cigar.len() - i,
    {
        match cigar[i] {
            Some(CigarKind::HardClip) => {
                return true;
            },
            _ => {},
        }
        i += 1;
    }
    false
}

/// One finding, as the validator keeps it.
struct FindingTally {
    count: u64,
    first: Option<(u64, String)>,
}

impl View for FindingTally {
    type V = FindingState;

    closed spec fn view(&self) -> FindingState {
        FindingState {
            count: self.count,
            first: match self.first {
                Some((index, name)) => Some((index, name@)),
                None => None,
            },
        }
    }
}

impl FindingTally {
    fn new() -> (tally: Self)
        ensures
            tally@ == (FindingState { count: 0, first: None }),
    {
        FindingTally { count: 0, first: None }
    }

    fn push_warning(&self, finding: Finding, warnings: &mut Vec<String>)
        ensures
            texts(final(warnings)@) == texts(old(warnings)@) + self@.warnings(finding),
    {
        match &self.first {
            Some((index, name)) => {
                let mut message = String::from_str("File contains ");
                message.append(decimal_string(self.count).as_str());
                match finding {
                    Finding::Secondary => {
                        message.append(" secondary alignment(s). First detected at record #");
                    },
                    Finding::HardClip => {
                        message.append(
                            " primary alignment(s) with hard-clipped bases. First detected at record #",
                        );
                    },
                }
                message.append(decimal_string(*index).as_str());
                message.append(" ('");
                message.append(name.as_str());
                message.append("').");
                warnings.push(message);
                assert(texts(warnings@) =~= texts(old(warnings)@) + self@.warnings(finding));
            },
            None => {
                assert(texts(warnings@) =~= texts(old(warnings)@) + self@.warnings(finding));
            },
        }
    }
}

/// The validator of one aligned-read container, fed record by record once
/// the header has been read.
pub struct BamCheckProcessor {
    header: BamHeader,
    num_records: u64,
    secondary: FindingTally,
    hard_clip: FindingTally,
}

impl View for BamCheckProcessor {
    type V = BamState;

    closed spec fn view(&self) -> BamState {
        BamState {
            header: self.header,
            num_records: self.num_records,
            secondary: self.secondary@,
            hard_clip: self.hard_clip@,
        }
    }
}

impl BamCheckProcessor {
    /// No finding was made more often than records were decoded.
    #[verifier::type_invariant]
    spec fn counts_are_bounded(self) -> bool {
        self.secondary.count <= self.num_records && self.hard_clip.count <= self.num_records
    }

    /// A validator that has read the header and no record yet.
    pub fn new(header: BamHeader) -> (processor: Self)
        ensures
            processor@ == BamState::initial(header),
    {
        BamCheckProcessor {
            header,
            num_records: 0,
            secondary: FindingTally::new(),
            hard_clip: FindingTally::new(),
        }
    }

    /// Takes the next record of the container, as the decoder gave it: the
    /// record, or the cause for which it could not be decoded.
    ///
    /// A record that could not be decoded comes back as the error that
    /// aborts the scan, and leaves the validator unchanged.
    pub fn process_record(&mut self, record: &Result<BamRecord, String>) -> (res: Result<
        (),
        String,
    >)
        requires
            old(self)@.num_records < u64::MAX,
        ensures
            final(self)@ == old(self)@.after_record(*record),
            match res {
                Ok(_) => *record is Ok,
                Err(message) => *record matches Err(cause) && message@ == parse_error_message(
                    (old(self)@.num_records + 1) as nat,
                    cause@,
                ),
            },
    {
        match record {
            Err(cause) => {
                let mut message = String::from_str("Failed to parse record #");
                message.append(decimal_string(self.num_records + 1).as_str());
                message.append(": ");
                message.append(cause.as_str());
                Err(message)
            },
            Ok(rec) => {
                proof {
                    use_type_invariant(&*self);
                }
                let index = self.num_records + 1;
                self.num_records = index;
                let secondary = is_secondary(rec.flags);
                let hard_clipped = !secondary && contains_hard_clip(&rec.cigar);
                if secondary {
                    self.secondary.count = self.secondary.count + 1;
                    if self.secondary.first.is_none() {
                        self.secondary.first = Some((index, rec.name.clone()));
                    }
                }
                if hard_clipped {
                    self.hard_clip.count = self.hard_clip.count + 1;
                    if self.hard_clip.first.is_none() {
                        self.hard_clip.first = Some((index, rec.name.clone()));
                    }
                }
                Ok(())
            },
        }
    }

    /// The statistics of the records decoded so far.
    pub fn stats(&self) -> (stats: Option<Stats>)
        ensures
            stats == self@.stats(),
    {
        if self.num_records > 0 {
            Some(Stats { num_records: self.num_records, read_length: None })
        } else {
            None
        }
    }

    /// Ends the scan: what the container is reported with.
    pub fn finalize(self) -> (outcome: CheckOutcome)
        ensures
            outcome@ == self@.finalized(),
    {
        if self.num_records == 0 {
            let mut errors: Vec<String> = Vec::new();
            errors.push(String::from_str("File is empty. Expected at least one record."));
            let outcome = CheckOutcome { stats: None, errors, warnings: Vec::new() };
            assert(texts(outcome.errors@) =~= seq![empty_file_message()]);
            assert(texts(outcome.warnings@) =~= Seq::empty());
            return outcome;
        }
        let mut warnings: Vec<String> = Vec::new();
        if self.header.reference_sequences != 0 || self.header.read_groups != 0
            || self.header.programs != 0 || self.header.comments != 0 {
            warnings.push(
                String::from_str(
                    "Detected a header in BAM file, ensure it contains no private information!",
                ),
            );
            assert(texts(warnings@) =~= seq![header_message()]);
        } else {
            assert(texts(warnings@) =~= Seq::empty());
        }
        self.secondary.push_warning(Finding::Secondary, &mut warnings);
        self.hard_clip.push_warning(Finding::HardClip, &mut warnings);
        let outcome = CheckOutcome { stats: self.stats(), errors: Vec::new(), warnings };
        assert(texts(outcome.errors@) =~= Seq::empty());
        outcome
    }
}

/// The index of the first record at or after `from` that could not be
/// decoded, or the number of records if there is none.
pub open spec fn first_undecodable(records: Seq<Result<BamRecord, String>>, from: int) -> int
    decreases records.len() - from,
{
    if from >= records.len() {
        records.len() as int
    } else if records[from] is Err {
        from
    } else {
        first_undecodable(records, from + 1)
    }
}

/// The read name of record `i`.
pub open spec fn name_at(records: Seq<Result<BamRecord, String>>, i: int) -> Seq<char> {
    match records[i] {
        Ok(record) => record.name@,
        Err(_) => Seq::empty(),
    }
}

/// What is known of a finding after the first `count` records: how many
/// of them showed it, and the number and name of the first that did.
pub open spec fn finding_state(
    finding: Finding,
    records: Seq<Result<BamRecord, String>>,
    count: int,
) -> FindingState {
    let first = first_of(finding, records, count);
    FindingState {
        count: count_of(finding, records, count) as u64,
        first: if first < count {
            Some(((first + 1) as u64, name_at(records, first)))
        } else {
            None
        },
    }
}

/// The state of a validator that has taken the first `count` records of a
/// container.
pub open spec fn scanned_state(
    header: BamHeader,
    records: Seq<Result<BamRecord, String>>,
    count: int,
) -> BamState {
    BamState {
        header: header,
        num_records: count as u64,
        secondary: finding_state(Finding::Secondary, records, count),
        hard_clip: finding_state(Finding::HardClip, records, count),
    }
}

/// The result of scanning a whole container. A header that could not be
/// read aborts the scan before any record. The scan then runs up to the
/// first record that could not be decoded, which aborts it with its error
/// and the statistics of the records before it. Without such a record
/// every record is counted, and the findings are made over all of them.
pub open spec fn scan_bam(
    header: Result<BamHeader, String>,
    records: Seq<Result<BamRecord, String>>,
) -> Result<CheckOutcomeView, ScanAbortView> {
    match header {
        Err(cause) => Err(
            ScanAbortView { message: header_error_message(cause@), stats: None },
        ),
        Ok(h) => {
            let k = first_undecodable(records, 0);
            let before = scanned_state(h, records, k);
            if k < records.len() {
                match records[k] {
                    Err(cause) => Err(
                        ScanAbortView {
                            message: parse_error_message((k + 1) as nat, cause@),
                            stats: before.stats(),
                        },
                    ),
                    Ok(_) => Ok(before.finalized()),
                }
            } else {
                Ok(before.finalized())
            }
        },
    }
}

/// Where the first undecodable record lies.
pub proof fn lemma_first_undecodable(records: Seq<Result<BamRecord, String>>, from: int)
    requires
        0 <= from <= records.len(),
    ensures
        from <= first_undecodable(records, from) <= records.len(),
        forall|i: int| from <= i < first_undecodable(records, from) ==> records[i] is Ok,
        first_undecodable(records, from) < records.len() ==> records[first_undecodable(
            records,
            from,
        )] is Err,
    decreases records.len() - from,
{
    if from < records.len() && records[from] is Ok {
        lemma_first_undecodable(records, from + 1);
    }
}

/// The first undecodable record is the one that only decoded records
/// precede.
pub proof fn lemma_first_undecodable_is(records: Seq<Result<BamRecord, String>>, k: int)
    requires
        0 <= k <= records.len(),
        forall|i: int| 0 <= i < k ==> records[i] is Ok,
        k < records.len() ==> records[k] is Err,
    ensures
        first_undecodable(records, 0) == k,
{
    lemma_first_undecodable(records, 0);
}

/// The first record that shows a finding: none before it does, and there
/// are no more findings than records.
pub proof fn lemma_first_of(
    finding: Finding,
    records: Seq<Result<BamRecord, String>>,
    upto: int,
)
    requires
        0 <= upto,
    ensures
        0 <= first_of(finding, records, upto) <= upto,
        count_of(finding, records, upto) <= upto,
        forall|i: int|
            0 <= i < first_of(finding, records, upto) ==> !shows_at(finding, records, i),
        first_of(finding, records, upto) < upto ==> shows_at(
            finding,
            records,
            first_of(finding, records, upto),
        ) && count_of(finding, records, upto) >= 1,
        first_of(finding, records, upto) == upto ==> count_of(finding, records, upto) == 0,
    decreases upto,
{
    if upto > 0 {
        lemma_first_of(finding, records, upto - 1);
    }
}

/// One record more, on top of decoded records.
pub proof fn lemma_scanned_step(
    header: BamHeader,
    records: Seq<Result<BamRecord, String>>,
    k: int,
)
    requires
        0 <= k < records.len(),
        k < u64::MAX,
        records[k] is Ok,
    ensures
        scanned_state(header, records, k).after_record(records[k]) == scanned_state(
            header,
            records,
            k + 1,
        ),
{
    lemma_first_of(Finding::Secondary, records, k);
    lemma_first_of(Finding::HardClip, records, k);
    lemma_first_of(Finding::Secondary, records, k + 1);
    lemma_first_of(Finding::HardClip, records, k + 1);
}

/// Scans a whole container, given as what reading its header gave and
/// the records its decoder yields in order.
pub fn scan_bam_records(
    header: &Result<BamHeader, String>,
    records: &Vec<Result<BamRecord, String>>,
) -> (scan: Result<CheckOutcome, ScanAbort>)
    ensures
        scan_view(scan) == scan_bam(*header, records@),
{
    let head = match header {
        Err(cause) => {
            let mut message = String::from_str("Failed to read BAM header: ");
            message.append(cause.as_str());
            return Err(ScanAbort { message, stats: None });
        },
        Ok(head) => *head,
    };
    let mut processor = BamCheckProcessor::new(head);
    let mut i: usize = 0;
    while i < records.len()
        invariant
            *header == Ok::<BamHeader, String>(head),
            i <= records.len(),
            processor@ == scanned_state(head, records@, i as int),
            forall|j: int| 0 <= j < i ==> records@[j] is Ok,
        decreases records.len() - i,
    {
        proof {
            if records@[i as int] is Ok {
                lemma_scanned_step(head, records@, i as int);
            } else {
                lemma_first_of(Finding::Secondary, records@, i as int);
                lemma_first_of(Finding::HardClip, records@, i as int);
            }
        }
        match processor.process_record(&records[i]) {
            Err(message) => {
                proof {
                    lemma_first_undecodable_is(records@, i as int);
                }
                return Err(ScanAbort { message, stats: processor.stats() });
            },
            Ok(_) => {},
        }
        i += 1;
    }
    proof {
        lemma_first_undecodable_is(records@, records.len() as int);
    }
    Ok(processor.finalize())
}

/// Checks one aligned-read container: scans it and reports the file.
/// `header` is what reading the header gave and `records` are the records
/// that the decoder yields, in order; `hasher` is the handle of the file's
/// hash as it was given back after the scan, or `None` if the stream still
/// holds it.
pub fn check_bam(
    path: &str,
    header: &Result<BamHeader, String>,
    records: &Vec<Result<BamRecord, String>>,
    hasher: Option<SharedHashingReader>,
) -> (report: FileReport)
    ensures
        report@ == file_report(path@, scan_bam(*header, records@), hasher_view(hasher)),
{
    check_file(path, scan_bam_records(header, records), hasher)
}

/// The warnings of a container whose records all decode. Each finding is
/// reported at most once, with the number of records that show it and
/// with the number and name of the first of them, however many follow.
pub proof fn law_alignment_warnings(
    header: BamHeader,
    records: Seq<Result<BamRecord, String>>,
    finding: Finding,
)
    requires
        0 < records.len() < u64::MAX,
        forall|i: int| 0 <= i < records.len() ==> records[i] is Ok,
    ensures
        scan_bam(Ok(header), records) matches Ok(outcome) && outcome.warnings == (
        if header.has_content() {
            seq![header_message()]
        } else {
            Seq::empty()
        }) + finding_state(Finding::Secondary, records, records.len() as int).warnings(
            Finding::Secondary,
        ) + finding_state(Finding::HardClip, records, records.len() as int).warnings(
            Finding::HardClip,
        ),
        ({
            let first = first_of(finding, records, records.len() as int);
            let warnings = finding_state(finding, records, records.len() as int).warnings(
                finding,
            );
            &&& 0 <= first <= records.len()
            &&& forall|i: int| 0 <= i < first ==> !shows_at(finding, records, i)
            &&& first < records.len() ==> shows_at(finding, records, first) && warnings == seq![
                finding_message(
                    finding,
                    count_of(finding, records, records.len() as int),
                    (first + 1) as nat,
                    name_at(records, first),
                ),
            ]
            &&& first == records.len() ==> warnings.len() == 0
        }),
{
    lemma_first_undecodable_is(records, records.len() as int);
    lemma_first_of(finding, records, records.len() as int);
}

/// A container without a decodable record is reported as an error and
/// without statistics, whatever became of its hash. So is one whose
/// header could not be read.
pub proof fn law_no_record_is_error(
    header: Result<BamHeader, String>,
    records: Seq<Result<BamRecord, String>>,
    path: Seq<char>,
    hashing: Option<crate::sha256::HashingState>,
)
    requires
        header is Err || records.len() == 0 || records[0] is Err,
    ensures
        !file_report(path, scan_bam(header, records), hashing).is_ok(),
        file_report(path, scan_bam(header, records), hashing).stats is None,
{
    if header is Ok {
        lemma_first_undecodable_is(records, 0);
    }
}

/// A container is reported with statistics exactly if its header was
/// read and its first record was decoded.
pub proof fn law_stats_need_a_record(
    header: Result<BamHeader, String>,
    records: Seq<Result<BamRecord, String>>,
    path: Seq<char>,
    hashing: Option<crate::sha256::HashingState>,
)
    requires
        records.len() < u64::MAX,
    ensures
        file_report(path, scan_bam(header, records), hashing).stats is Some <==> (header is Ok
            && records.len() > 0 && records[0] is Ok),
{
    lemma_first_undecodable(records, 0);
}

} // verus!
