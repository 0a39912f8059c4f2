//! The entry point: from a payload to the bytes of the report and the name of its file.

use crate::builder::{build_document, report_document};
use crate::clock::{current_date, is_date_text};
use crate::error::{ReportError, ReportErrorView};
use crate::models::{MonitoringReportData, RecordView};
use crate::normalizer::{normalized, parse_record};
use crate::packager::{filename, is_package_of, package, packaged_view, report_filename};
use vstd::prelude::*;

verus! {

/// A generated report: the bytes of the document and the name of its file.
#[derive(Debug, Clone, PartialEq, Eq)]
pub struct GeneratedReport {
    pub file_data: Vec<u8>,
    pub filename: String,
}

/// What a generated report holds, as mathematical values.
pub struct GeneratedReportView {
    pub file_data: Seq<u8>,
    pub filename: Seq<char>,
}

impl View for GeneratedReport {
    type V = GeneratedReportView;

    open spec fn view(&self) -> GeneratedReportView {
        GeneratedReportView { file_data: self.file_data@, filename: self.filename@ }
    }
}

/// The views of the two sides of a result of the generation.
pub open spec fn report_result_view(result: Result<GeneratedReport, ReportError>) -> Result<
    GeneratedReportView,
    ReportErrorView,
> {
    match result {
        Ok(report) => Ok(report@),
        Err(error) => Err(error@),
    }
}

/// What the generation returns for each outcome of the packing: the bytes with the name of
/// the file, or the error as it is.
pub open spec fn assembled_view(outcome: Result<Seq<u8>, ReportErrorView>, filename: Seq<char>)
    -> Result<GeneratedReportView, ReportErrorView> {
    match outcome {
        Ok(file_data) => Ok(GeneratedReportView { file_data, filename }),
        Err(error) => Err(error),
    }
}

/// The same, for a result of the packager.
pub open spec fn assembled(packed: Result<Vec<u8>, ReportError>, filename: Seq<char>) -> Result<
    GeneratedReportView,
    ReportErrorView,
> {
    assembled_view(packaged_view(packed), filename)
}

/// Whether `result` is what the generation returns for `record` on the day `date`: the
/// package of the record's report under the name of the record's file, or the packaging error
/// where the writer failed on that report.
pub open spec fn is_report_of(
    record: RecordView,
    date: Seq<char>,
    result: Result<GeneratedReport, ReportError>,
) -> bool {
    exists|outcome: Result<Seq<u8>, ReportErrorView>|
        #[trigger] is_package_of(report_document(record, date), outcome) && report_result_view(
            result,
        ) == assembled_view(outcome, report_filename(record.account_name, date))
}

/// Whether `result` is what the generation returns for `payload` on the day `date`: the
/// input format error of a payload that is no record, else the report of its record.
pub open spec fn generated(
    payload: Seq<char>,
    date: Seq<char>,
    result: Result<GeneratedReport, ReportError>,
) -> bool {
    match normalized(payload) {
        Ok(record) => is_report_of(record, date, result),
        Err(error) => result matches Err(e) && e@ == error,
    }
}

/// Whether `result` is what the generation returns for `payload` today: the input format
/// error of a payload that is no record, else the report of its record on some day that the
/// clock gave.
pub open spec fn generated_today(
    payload: Seq<char>,
    result: Result<GeneratedReport, ReportError>,
) -> bool {
    match normalized(payload) {
        Ok(record) => exists|date: Seq<char>|
            is_date_text(date) && #[trigger] is_report_of(record, date, result),
        Err(error) => result matches Err(e) && e@ == error,
    }
}

/// The generator of monitoring reports.
pub struct WordReport;

impl WordReport {
    /// Joins the outcome of the packing with the name of the file.
    pub fn assemble(packed: Result<Vec<u8>, ReportError>, filename: String) -> (result: Result<
        GeneratedReport,
        ReportError,
    >)
        ensures
            report_result_view(result) == assembled(packed, filename@),
    {
        match packed {
            Ok(file_data) => Ok(GeneratedReport { file_data, filename }),
            Err(error) => Err(error),
        }
    }

    /// Builds and packs the report of `record`, dated `date`.
    pub fn generate_report(record: &MonitoringReportData, date: &str) -> (result: Result<
        GeneratedReport,
        ReportError,
    >)
        ensures
            is_report_of(record@, date@, result),
    {
        let name = filename(record.account_name.as_str(), date);
        let document = build_document(record, date);
        let packed = package(&document);
        assert(is_package_of(report_document(record@, date@), packaged_view(packed)));
        Self::assemble(packed, name)
    }

    /// Builds and packs the report of `record`, dated today (UTC).
    pub fn generate_report_today(record: &MonitoringReportData) -> (result: Result<
        GeneratedReport,
        ReportError,
    >)
        ensures
            exists|date: Seq<char>|
                is_date_text(date) && #[trigger] is_report_of(record@, date, result),
    {
        let date = current_date();
        let result = Self::generate_report(record, date.as_str());
        assert(is_date_text(date@) && is_report_of(record@, date@, result));
        result
    }

    /// Generates the report of the record in `payload`, dated `date`.
    pub fn generate_word_on(payload: &str, date: &str) -> (result: Result<
        GeneratedReport,
        ReportError,
    >)
        ensures
            generated(payload@, date@, result),
    {
        match parse_record(payload) {
            Ok(record) => Self::generate_report(&record, date),
            Err(error) => Err(error),
        }
    }

    /// Generates the report of the record in `payload`, dated today (UTC).
    pub fn generate_word(payload: &str) -> (result: Result<GeneratedReport, ReportError>)
        ensures
            generated_today(payload@, result),
    {
        match parse_record(payload) {
            Ok(record) => Self::generate_report_today(&record),
            Err(error) => Err(error),
        }
    }
}

} // verus!
