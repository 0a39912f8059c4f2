//! The monitoring record that a report is built from.

use vstd::prelude::*;

verus! {

/// One earlier status of the monitored signal.
#[derive(Debug, Clone, PartialEq, Eq)]
pub struct MonitoringHistoryItem {
    pub date_status: String,
    pub status_signal_label: String,
    pub description: Option<String>,
}

/// The monitoring data of one counterparty.
///
/// The history is carried along with the record; no part of the report shows it.
#[derive(Debug, Clone, PartialEq, Eq)]
pub struct MonitoringReportData {
    /// Tax identifier of the counterparty.
    pub account_inn: String,
    pub account_name: String,
    pub industry: String,
    pub business_segment_label: String,
    /// The risk signal that was identified.
    pub signal_name: String,
    /// Free text, possibly of several lines.
    pub description: Option<String>,
    pub created_by: Option<String>,
    pub date_status: String,
    pub monitoring_results_history: Option<Vec<MonitoringHistoryItem>>,
}

/// What a history item holds, as mathematical values.
pub struct HistoryItemView {
    pub date_status: Seq<char>,
    pub status_signal_label: Seq<char>,
    pub description: Option<Seq<char>>,
}

/// What a record holds, as mathematical values.
pub struct RecordView {
    pub account_inn: Seq<char>,
    pub account_name: Seq<char>,
    pub industry: Seq<char>,
    pub business_segment_label: Seq<char>,
    pub signal_name: Seq<char>,
    pub description: Option<Seq<char>>,
    pub created_by: Option<Seq<char>>,
    pub date_status: Seq<char>,
    pub monitoring_results_history: Option<Seq<HistoryItemView>>,
}

/// The characters of an optional string.
pub open spec fn opt_text(text: Option<String>) -> Option<Seq<char>> {
    match text {
        Some(t) => Some(t@),
        None => None,
    }
}

/// The views of a sequence of history items.
pub open spec fn history_views(items: Seq<MonitoringHistoryItem>) -> Seq<HistoryItemView> {
    items.map_values(|item: MonitoringHistoryItem| item@)
}

impl View for MonitoringHistoryItem {
    type V = HistoryItemView;

    open spec fn view(&self) -> HistoryItemView {
        HistoryItemView {
            date_status: self.date_status@,
            status_signal_label: self.status_signal_label@,
            description: opt_text(self.description),
        }
    }
}

impl View for MonitoringReportData {
    type V = RecordView;

    open spec fn view(&self) -> RecordView {
        RecordView {
            account_inn: self.account_inn@,
            account_name: self.account_name@,
            industry: self.industry@,
            business_segment_label: self.business_segment_label@,
            signal_name: self.signal_name@,
            description: opt_text(self.description),
            created_by: opt_text(self.created_by),
            date_status: self.date_status@,
            monitoring_results_history: match self.monitoring_results_history {
                Some(items) => Some(history_views(items@)),
                None => None,
            },
        }
    }
}

} // verus!
