//! Builds a monitoring report as a word-processing document.
//!
//! A payload is read as a record (`normalizer`), the record is laid out as a tree of
//! paragraphs and tables (`builder`, with the looks of `style`), and the tree is handed to
//! the document writer and packed (`packager`). `word_report` ties the steps together.

pub mod builder;
pub mod clock;
pub mod document;
pub mod docx;
pub mod error;
pub mod json;
pub mod laws;
pub mod models;
pub mod normalizer;
pub mod packager;
pub mod style;
pub mod text;
pub mod word_report;

pub use error::ReportError;
pub use models::{MonitoringHistoryItem, MonitoringReportData};
pub use word_report::{GeneratedReport, WordReport};
