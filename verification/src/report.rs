//! The report sink's wire format: one record per physical file, written
//! as one line of JSON.

use vstd::prelude::*;
use crate::checker::{CheckResult, CheckResultView, FileReport, FileReportView, Stats};
use crate::text::{clone_strings, decimal, decimal_string, opt_text, texts};

verus! {

/// The format family of a report record.
#[derive(Debug, Copy, Clone, PartialEq, Eq, Structural)]
pub enum CheckType {
    Fastq,
    Bam,
    Raw,
}

/// One record of the report: what is written of one physical file.
#[derive(Debug)]
pub struct ReportRecord {
    pub check_type: CheckType,
    pub path: String,
    /// Whether the status is "OK" rather than "ERROR".
    pub ok: bool,
    /// Records decoded; never present for the raw family.
    pub num_records: Option<u64>,
    /// Read length; only ever present for the read family.
    pub read_length: Option<usize>,
    pub checksum: Option<String>,
    pub errors: Vec<String>,
    pub warnings: Vec<String>,
}

/// A [`ReportRecord`] as plain text and numbers.
pub struct ReportRecordView {
    pub check_type: CheckType,
    pub path: Seq<char>,
    pub ok: bool,
    pub num_records: Option<u64>,
    pub read_length: Option<usize>,
    pub checksum: Option<Seq<char>>,
    pub errors: Seq<Seq<char>>,
    pub warnings: Seq<Seq<char>>,
}

impl View for ReportRecord {
    type V = ReportRecordView;

    open spec fn view(&self) -> ReportRecordView {
        ReportRecordView {
            check_type: self.check_type,
            path: self.path@,
            ok: self.ok,
            num_records: self.num_records,
            read_length: self.read_length,
            checksum: opt_text(self.checksum),
            errors: texts(self.errors@),
            warnings: texts(self.warnings@),
        }
    }
}

/// The records of a list as plain text and numbers.
pub open spec fn record_views(records: Seq<ReportRecord>) -> Seq<ReportRecordView> {
    records.map_values(|r: ReportRecord| r@)
}

/// The number of records in statistics, if there are statistics.
pub open spec fn stats_num_records(stats: Option<Stats>) -> Option<u64> {
    match stats {
        Some(s) => Some(s.num_records),
        None => None,
    }
}

/// The read length in statistics, if there are statistics that hold one.
pub open spec fn stats_read_length(stats: Option<Stats>) -> Option<usize> {
    match stats {
        Some(s) => s.read_length,
        None => None,
    }
}

/// The record of one file. The errors of the file are followed by those
/// of the pair it belongs to, if it belongs to one, and the status is
/// "OK" only if there is no error of either kind. The raw family has no
/// statistics, and only the read family has a read length.
pub open spec fn file_record(
    check_type: CheckType,
    file: FileReportView,
    pair_errors: Seq<Seq<char>>,
) -> ReportRecordView {
    ReportRecordView {
        check_type: check_type,
        path: file.path,
        ok: file.is_ok() && pair_errors.len() == 0,
        num_records: if check_type == CheckType::Raw {
            None
        } else {
            stats_num_records(file.stats)
        },
        read_length: if check_type == CheckType::Fastq {
            stats_read_length(file.stats)
        } else {
            None
        },
        checksum: file.sha256,
        errors: file.errors + pair_errors,
        warnings: file.warnings,
    }
}

/// The records of one job: one per physical file. The two records of a
/// pair both carry the errors of the pair.
pub open spec fn report_records_of(result: CheckResultView) -> Seq<ReportRecordView> {
    match result {
        CheckResultView::PairedFastq(pair) => seq![
            file_record(CheckType::Fastq, pair.fq1_report, pair.pair_errors),
            file_record(CheckType::Fastq, pair.fq2_report, pair.pair_errors),
        ],
        CheckResultView::SingleFastq(file) => seq![
            file_record(CheckType::Fastq, file, Seq::empty()),
        ],
        CheckResultView::Bam(file) => seq![file_record(CheckType::Bam, file, Seq::empty())],
        CheckResultView::Raw(file) => seq![file_record(CheckType::Raw, file, Seq::empty())],
    }
}

fn clone_opt_string(string: &Option<String>) -> (copy: Option<String>)
    ensures
        opt_text(copy) == opt_text(*string),
{
    match string {
        Some(s) => Some(s.clone()),
        None => None,
    }
}

fn record_of(check_type: CheckType, file: &FileReport, pair_errors: &Vec<String>) -> (record:
    ReportRecord)
    ensures
        record@ == file_record(check_type, file@, texts(pair_errors@)),
{
    let mut errors = clone_strings(&file.errors);
    let mut i: usize = 0;
    while i < pair_errors.len()
        invariant
            i <= pair_errors.len(),
            errors@ == file.errors@ + pair_errors@.take(i as int),
        decreases pair_errors.len() - i,
    {
        errors.push(pair_errors[i].clone());
        assert(errors@ =~= file.errors@ + pair_errors@.take(i + 1));
        i += 1;
    }
    assert(pair_errors@.take(pair_errors.len() as int) =~= pair_errors@);
    assert(texts(errors@) =~= texts(file.errors@) + texts(pair_errors@));
    let num_records = match (check_type, file.stats) {
        (CheckType::Raw, _) => None,
        (_, Some(stats)) => Some(stats.num_records),
        (_, None) => None,
    };
    let read_length = match (check_type, file.stats) {
        (CheckType::Fastq, Some(stats)) => stats.read_length,
        _ => None,
    };
    ReportRecord {
        check_type,
        path: file.path.clone(),
        ok: file.is_ok() && pair_errors.len() == 0,
        num_records,
        read_length,
        checksum: clone_opt_string(&file.sha256),
        errors,
        warnings: clone_strings(&file.warnings),
    }
}

/// The records that the report holds of one job.
pub fn report_records(result: &CheckResult) -> (records: Vec<ReportRecord>)
    ensures
        record_views(records@) == report_records_of(result@),
{
    let mut records: Vec<ReportRecord> = Vec::new();
    let none: Vec<String> = Vec::new();
    assert(texts(none@) =~= Seq::empty());
    match result {
        CheckResult::PairedFastq(pair) => {
            records.push(record_of(CheckType::Fastq, &pair.fq1_report, &pair.pair_errors));
            records.push(record_of(CheckType::Fastq, &pair.fq2_report, &pair.pair_errors));
        },
        CheckResult::SingleFastq(file) => {
            records.push(record_of(CheckType::Fastq, file, &none));
        },
        CheckResult::Bam(file) => {
            records.push(record_of(CheckType::Bam, file, &none));
        },
        CheckResult::Raw(file) => {
            records.push(record_of(CheckType::Raw, file, &none));
        },
    }
    assert(record_views(records@) =~= report_records_of(result@));
    records
}

/// The two records of a pair carry the same pair-level errors, after the
/// errors of their own file, and neither has the status "OK" once the
/// pair has an error.
pub proof fn law_pair_errors_on_both_records(result: CheckResultView)
    requires
        result is PairedFastq,
    ensures
        report_records_of(result).len() == 2,
        report_records_of(result)[0].errors == result->PairedFastq_0.fq1_report.errors
            + result->PairedFastq_0.pair_errors,
        report_records_of(result)[1].errors == result->PairedFastq_0.fq2_report.errors
            + result->PairedFastq_0.pair_errors,
        result->PairedFastq_0.pair_errors.len() > 0 ==> !report_records_of(result)[0].ok
            && !report_records_of(result)[1].ok,
{
}

/// A job failed exactly if one of its records has not the status "OK".
pub proof fn law_status_follows_result(result: CheckResultView)
    ensures
        result.is_error() <==> exists|i: int|
            0 <= i < report_records_of(result).len() && !(#[trigger] report_records_of(
                result,
            )[i]).ok,
{
    let records = report_records_of(result);
    if result.is_error() {
        match result {
            CheckResultView::PairedFastq(pair) => {
                if !pair.fq2_report.is_ok() && pair.fq1_report.is_ok()
                    && pair.pair_errors.len() == 0 {
                    assert(!records[1].ok);
                } else {
                    assert(!records[0].ok);
                }
            },
            _ => {
                assert(!records[0].ok);
            },
        }
    }
}

/// The JSON string literal that `serde_json` writes for a text: the text
/// between double quotes, with the characters escaped that JSON wants
/// escaped.
pub uninterp spec fn json_string(text: Seq<char>) -> Seq<char>;

/// `serde_json::to_string` on a `str`: the JSON string literal of the
/// text. Should the call ever refuse, the result is empty.
#[verifier::external_body]
fn json_quote(text: &str) -> (quoted: String)
    ensures
        quoted@ == json_string(text@),
{
    serde_json::to_string(text).unwrap_or_default()
}

/// A number that may be absent, in JSON.
pub open spec fn json_number(number: Option<nat>) -> Seq<char> {
    match number {
        Some(n) => decimal(n),
        None => "null"@,
    }
}

/// A text that may be absent, in JSON.
pub open spec fn json_text(text: Option<Seq<char>>) -> Seq<char> {
    match text {
        Some(t) => json_string(t),
        None => "null"@,
    }
}

/// The string literals of a list of texts, separated by commas.
pub open spec fn json_items(items: Seq<Seq<char>>) -> Seq<char>
    decreases items.len(),
{
    if items.len() == 0 {
        Seq::empty()
    } else if items.len() == 1 {
        json_string(items[0])
    } else {
        json_items(items.drop_last()) + ","@ + json_string(items.last())
    }
}

/// A list of texts, in JSON.
pub open spec fn json_array(items: Seq<Seq<char>>) -> Seq<char> {
    "["@ + json_items(items) + "]"@
}

/// The discriminator of a format family.
pub open spec fn check_type_tag(check_type: CheckType) -> Seq<char> {
    match check_type {
        CheckType::Fastq => "fastq"@,
        CheckType::Bam => "bam"@,
        CheckType::Raw => "raw"@,
    }
}

/// The status of a record.
pub open spec fn status_text(ok: bool) -> Seq<char> {
    if ok {
        "OK"@
    } else {
        "ERROR"@
    }
}

/// The opening of a record, up to and with its status.
pub open spec fn record_head(record: ReportRecordView) -> Seq<char> {
    "{\"check_type\":\""@ + check_type_tag(record.check_type) + "\",\"data\":{\"path\":"@
        + json_string(record.path) + ",\"status\":\""@ + status_text(record.ok) + "\""@
}

/// The statistics of a record, as far as its family has them.
pub open spec fn record_stats(record: ReportRecordView) -> Seq<char> {
    match record.check_type {
        CheckType::Fastq => ",\"num_records\":"@ + json_number(
            match record.num_records {
                Some(n) => Some(n as nat),
                None => None,
            },
        ) + ",\"read_length\":"@ + json_number(
            match record.read_length {
                Some(n) => Some(n as nat),
                None => None,
            },
        ),
        CheckType::Bam => ",\"num_records\":"@ + json_number(
            match record.num_records {
                Some(n) => Some(n as nat),
                None => None,
            },
        ),
        CheckType::Raw => Seq::empty(),
    }
}

/// The rest of a record: checksum, errors and warnings.
pub open spec fn record_tail(record: ReportRecordView) -> Seq<char> {
    ",\"checksum\":"@ + json_text(record.checksum) + ",\"errors\":"@ + json_array(record.errors)
        + ",\"warnings\":"@ + json_array(record.warnings) + "}}"@
}

/// One record as a JSON object: the discriminator `check_type`, and under
/// `data` the path, the status, the statistics of the family, the
/// checksum, the errors and the warnings.
pub open spec fn record_json(record: ReportRecordView) -> Seq<char> {
    record_head(record) + record_stats(record) + record_tail(record)
}

/// The lines of a list of records: each record's JSON and a line feed.
pub open spec fn jsonl(records: Seq<ReportRecordView>) -> Seq<char>
    decreases records.len(),
{
    if records.len() == 0 {
        Seq::empty()
    } else {
        jsonl(records.drop_last()) + record_json(records.last()) + "\n"@
    }
}

fn render_number(number: Option<u64>) -> (text: String)
    ensures
        text@ == json_number(
            match number {
                Some(n) => Some(n as nat),
                None => None,
            },
        ),
{
    match number {
        Some(n) => decimal_string(n),
        None => String::from_str("null"),
    }
}

fn render_array(items: &Vec<String>) -> (text: String)
    ensures
        text@ == json_array(texts(items@)),
{
    let mut text = String::from_str("[");
    let mut i: usize = 0;
    assert(text@ =~= "["@ + json_items(texts(items@).take(0)));
    while i < items.len()
        invariant
            i <= items.len(),
            text@ == "["@ + json_items(texts(items@).take(i as int)),
        decreases items.len() - i,
    {
        let ghost before = texts(items@).take(i as int);
        let ghost after = texts(items@).take(i + 1);
        assert(after.drop_last() =~= before);
        assert(after.last() == items@[i as int]@);
        if i > 0 {
            text.append(",");
        }
        text.append(json_quote(items[i].as_str()).as_str());
        assert(text@ =~= "["@ + json_items(after));
        i += 1;
    }
    assert(texts(items@).take(items.len() as int) =~= texts(items@));
    text.append("]");
    text
}

/// Writes one record as a JSON object.
pub fn render_record(record: &ReportRecord) -> (text: String)
    ensures
        text@ == record_json(record@),
{
    let mut text = String::from_str("{\"check_type\":\"");
    match record.check_type {
        CheckType::Fastq => text.append("fastq"),
        CheckType::Bam => text.append("bam"),
        CheckType::Raw => text.append("raw"),
    }
    text.append("\",\"data\":{\"path\":");
    text.append(json_quote(record.path.as_str()).as_str());
    text.append(",\"status\":\"");
    if record.ok {
        text.append("OK");
    } else {
        text.append("ERROR");
    }
    text.append("\"");
    assert(text@ == record_head(record@));

    let mut stats = String::new();
    match record.check_type {
        CheckType::Fastq => {
            stats.append(",\"num_records\":");
            stats.append(render_number(record.num_records).as_str());
            stats.append(",\"read_length\":");
            let read_length = match record.read_length {
                Some(n) => Some(n as u64),
                None => None,
            };
            stats.append(render_number(read_length).as_str());
        },
        CheckType::Bam => {
            stats.append(",\"num_records\":");
            stats.append(render_number(record.num_records).as_str());
        },
        CheckType::Raw => {},
    }
    assert(stats@ =~= record_stats(record@));

    let mut tail = String::from_str(",\"checksum\":");
    match &record.checksum {
        Some(checksum) => tail.append(json_quote(checksum.as_str()).as_str()),
        None => tail.append("null"),
    }
    tail.append(",\"errors\":");
    tail.append(render_array(&record.errors).as_str());
    tail.append(",\"warnings\":");
    tail.append(render_array(&record.warnings).as_str());
    tail.append("}}");
    assert(tail@ == record_tail(record@));

    text.append(stats.as_str());
    text.append(tail.as_str());
    text
}

/// Appends to the report the lines of one job: one line per physical
/// file, each a JSON object followed by a line feed.
pub fn write_jsonl_report_entry(result: &CheckResult, writer: &mut String)
    ensures
        final(writer)@ == old(writer)@ + jsonl(report_records_of(result@)),
{
    let records = report_records(result);
    let ghost views = record_views(records@);
    let mut i: usize = 0;
    assert(writer@ =~= old(writer)@ + jsonl(views.take(0)));
    while i < records.len()
        invariant
            i <= records.len(),
            views == record_views(records@),
            writer@ == old(writer)@ + jsonl(views.take(i as int)),
        decreases records.len() - i,
    {
        let ghost before = views.take(i as int);
        let ghost after = views.take(i + 1);
        assert(after.drop_last() =~= before);
        assert(after.last() == records@[i as int]@);
        writer.append(render_record(&records[i]).as_str());
        writer.append("\n");
        assert(writer@ =~= old(writer)@ + jsonl(after));
        i += 1;
    }
    assert(views.take(records.len() as int) =~= views);
}

} // verus!
