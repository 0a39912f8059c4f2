//! The input normalizer: holds a payload to the record's schema.
//!
//! A payload is a JSON object. Six of its members are required strings; `description` and
//! `created_by` are strings that may be missing or null; `monitoring_results_history` is a
//! sequence of history items that may be missing or null. Other members are passed over. The
//! members are examined in the order of the record's fields, and the first that is missing or
//! of the wrong type gives the complaint: a record is built whole or not at all.

use crate::error::{ReportError, ReportErrorView};
use crate::json::{json_parse, parse_json, JsonValue};
use crate::models::{
    history_views, HistoryItemView, MonitoringHistoryItem, MonitoringReportData, RecordView,
};
use vstd::prelude::*;
use vstd::string::StringExecFns;

verus! {

pub const FIELD_ACCOUNT_INN: &'static str = "account_inn";

pub const FIELD_ACCOUNT_NAME: &'static str = "account_name";

pub const FIELD_INDUSTRY: &'static str = "industry";

pub const FIELD_SEGMENT: &'static str = "business_segment_label";

pub const FIELD_SIGNAL_NAME: &'static str = "signal_name";

pub const FIELD_DESCRIPTION: &'static str = "description";

pub const FIELD_CREATED_BY: &'static str = "created_by";

pub const FIELD_DATE_STATUS: &'static str = "date_status";

pub const FIELD_HISTORY: &'static str = "monitoring_results_history";

pub const FIELD_STATUS_LABEL: &'static str = "status_signal_label";

pub const MISSING_FIELD: &'static str = "missing field `";

pub const INVALID_FIELD: &'static str = "invalid type for field `";

pub const EXPECTED_STRING: &'static str = "`: expected a string";

pub const EXPECTED_SEQUENCE: &'static str = "`: expected a sequence";

pub const NOT_A_RECORD: &'static str = "invalid type: expected a record";

pub const NOT_AN_ITEM: &'static str = "invalid type: expected a history item";

/// The complaint about a required member that is not there.
pub open spec fn missing_field(name: Seq<char>) -> Seq<char> {
    MISSING_FIELD@ + name + seq!['`']
}

/// The complaint about a member that should be a string and is not.
pub open spec fn not_a_string(name: Seq<char>) -> Seq<char> {
    INVALID_FIELD@ + name + EXPECTED_STRING@
}

/// The complaint about a member that should be a sequence and is not.
pub open spec fn not_a_sequence(name: Seq<char>) -> Seq<char> {
    INVALID_FIELD@ + name + EXPECTED_SEQUENCE@
}

/// The value of the first member with the given key.
pub open spec fn member(members: Seq<(String, JsonValue)>, key: Seq<char>) -> Option<JsonValue>
    decreases members.len(),
{
    if members.len() == 0 {
        None
    } else if members[0].0@ == key {
        Some(members[0].1)
    } else {
        member(members.drop_first(), key)
    }
}

/// A required string member: its text, or the complaint.
pub open spec fn required_text(members: Seq<(String, JsonValue)>, key: Seq<char>) -> Result<
    Seq<char>,
    Seq<char>,
> {
    match member(members, key) {
        None => Err(missing_field(key)),
        Some(JsonValue::Text(text)) => Ok(text@),
        Some(_) => Err(not_a_string(key)),
    }
}

/// An optional string member: its text, nothing where it is missing or null, or the
/// complaint.
pub open spec fn optional_text(members: Seq<(String, JsonValue)>, key: Seq<char>) -> Result<
    Option<Seq<char>>,
    Seq<char>,
> {
    match member(members, key) {
        None | Some(JsonValue::Null) => Ok(None),
        Some(JsonValue::Text(text)) => Ok(Some(text@)),
        Some(_) => Err(not_a_string(key)),
    }
}

/// The history item that a JSON value stands for, or the complaint.
pub open spec fn item_of(json: JsonValue) -> Result<HistoryItemView, Seq<char>> {
    match json {
        JsonValue::Object(members) => {
            let date_status = required_text(members@, FIELD_DATE_STATUS@);
            let label = required_text(members@, FIELD_STATUS_LABEL@);
            let description = optional_text(members@, FIELD_DESCRIPTION@);
            if date_status is Err {
                Err(date_status->Err_0)
            } else if label is Err {
                Err(label->Err_0)
            } else if description is Err {
                Err(description->Err_0)
            } else {
                Ok(
                    HistoryItemView {
                        date_status: date_status->Ok_0,
                        status_signal_label: label->Ok_0,
                        description: description->Ok_0,
                    },
                )
            }
        },
        _ => Err(NOT_AN_ITEM@),
    }
}

/// The history items that a sequence of JSON values stands for, or the complaint about the
/// first that is none.
pub open spec fn items_of(items: Seq<JsonValue>) -> Result<Seq<HistoryItemView>, Seq<char>>
    decreases items.len(),
{
    if items.len() == 0 {
        Ok(Seq::empty())
    } else {
        match item_of(items[0]) {
            Err(complaint) => Err(complaint),
            Ok(first) => match items_of(items.drop_first()) {
                Err(complaint) => Err(complaint),
                Ok(rest) => Ok(seq![first] + rest),
            },
        }
    }
}

/// The optional history member.
pub open spec fn optional_history(members: Seq<(String, JsonValue)>) -> Result<
    Option<Seq<HistoryItemView>>,
    Seq<char>,
> {
    match member(members, FIELD_HISTORY@) {
        None | Some(JsonValue::Null) => Ok(None),
        Some(JsonValue::Array(items)) => match items_of(items@) {
            Ok(history) => Ok(Some(history)),
            Err(complaint) => Err(complaint),
        },
        Some(_) => Err(not_a_sequence(FIELD_HISTORY@)),
    }
}

/// The record that a JSON value stands for, or the complaint.
pub open spec fn record_of(json: JsonValue) -> Result<RecordView, Seq<char>> {
    match json {
        JsonValue::Object(members) => {
            let account_inn = required_text(members@, FIELD_ACCOUNT_INN@);
            let account_name = required_text(members@, FIELD_ACCOUNT_NAME@);
            let industry = required_text(members@, FIELD_INDUSTRY@);
            let segment = required_text(members@, FIELD_SEGMENT@);
            let signal_name = required_text(members@, FIELD_SIGNAL_NAME@);
            let description = optional_text(members@, FIELD_DESCRIPTION@);
            let created_by = optional_text(members@, FIELD_CREATED_BY@);
            let date_status = required_text(members@, FIELD_DATE_STATUS@);
            let history = optional_history(members@);
            if account_inn is Err {
                Err(account_inn->Err_0)
            } else if account_name is Err {
                Err(account_name->Err_0)
            } else if industry is Err {
                Err(industry->Err_0)
            } else if segment is Err {
                Err(segment->Err_0)
            } else if signal_name is Err {
                Err(signal_name->Err_0)
            } else if description is Err {
                Err(description->Err_0)
            } else if created_by is Err {
                Err(created_by->Err_0)
            } else if date_status is Err {
                Err(date_status->Err_0)
            } else if history is Err {
                Err(history->Err_0)
            } else {
                Ok(
                    RecordView {
                        account_inn: account_inn->Ok_0,
                        account_name: account_name->Ok_0,
                        industry: industry->Ok_0,
                        business_segment_label: segment->Ok_0,
                        signal_name: signal_name->Ok_0,
                        description: description->Ok_0,
                        created_by: created_by->Ok_0,
                        date_status: date_status->Ok_0,
                        monitoring_results_history: history->Ok_0,
                    },
                )
            }
        },
        _ => Err(NOT_A_RECORD@),
    }
}

/// What the normalizer returns for a JSON value: the record, or an input format error with
/// the complaint.
pub open spec fn normalized_json(json: JsonValue) -> Result<RecordView, ReportErrorView> {
    match record_of(json) {
        Ok(record) => Ok(record),
        Err(complaint) => Err(ReportErrorView::InputFormatError(complaint)),
    }
}

/// What the normalizer returns for a payload: an input format error with the parser's
/// complaint where the payload is no JSON, else what it returns for the JSON value.
pub open spec fn normalized(payload: Seq<char>) -> Result<RecordView, ReportErrorView> {
    match json_parse(payload) {
        Ok(json) => normalized_json(json),
        Err(complaint) => Err(ReportErrorView::InputFormatError(complaint)),
    }
}

/// The views of the two sides of a result of the normalizer.
pub open spec fn record_result_view(result: Result<MonitoringReportData, ReportError>) -> Result<
    RecordView,
    ReportErrorView,
> {
    match result {
        Ok(record) => Ok(record@),
        Err(error) => Err(error@),
    }
}

fn missing_field_text(name: &str) -> (text: String)
    ensures
        text@ == missing_field(name@),
{
    proof {
        reveal_strlit("`");
        assert("`"@ =~= seq!['`']);
    }
    String::from_str(MISSING_FIELD).concat(name).concat("`")
}

fn not_a_string_text(name: &str) -> (text: String)
    ensures
        text@ == not_a_string(name@),
{
    String::from_str(INVALID_FIELD).concat(name).concat(EXPECTED_STRING)
}

fn not_a_sequence_text(name: &str) -> (text: String)
    ensures
        text@ == not_a_sequence(name@),
{
    String::from_str(INVALID_FIELD).concat(name).concat(EXPECTED_SEQUENCE)
}

/// Finds the first member with the given key.
pub fn find_member<'a>(members: &'a Vec<(String, JsonValue)>, key: &str) -> (found: Option<
    &'a JsonValue,
>)
    ensures
        match found {
            Some(value) => member(members@, key@) == Some(*value),
            None => member(members@, key@) is None,
        },
{
    let wanted = String::from_str(key);
    let mut i: usize = 0;
    assert(members@.skip(0) =~= members@);
    while i < members.len()
        invariant
            i <= members.len(),
            wanted@ == key@,
            member(members@, key@) == member(members@.skip(i as int), key@),
        decreases members.len() - i,
    {
        proof {
            assert(members@.skip(i as int)[0] == members@[i as int]);
            assert(members@.skip(i as int).drop_first() =~= members@.skip(i + 1));
        }
        if members[i].0 == wanted {
            return Some(&members[i].1);
        }
        i += 1;
    }
    None
}

fn text_member(members: &Vec<(String, JsonValue)>, key: &str) -> (text: Result<String, String>)
    ensures
        match text {
            Ok(t) => required_text(members@, key@) == Ok::<Seq<char>, Seq<char>>(t@),
            Err(c) => required_text(members@, key@) == Err::<Seq<char>, Seq<char>>(c@),
        },
{
    match find_member(members, key) {
        None => Err(missing_field_text(key)),
        Some(JsonValue::Text(text)) => Ok(text.clone()),
        Some(_) => Err(not_a_string_text(key)),
    }
}

fn optional_text_member(members: &Vec<(String, JsonValue)>, key: &str) -> (text: Result<
    Option<String>,
    String,
>)
    ensures
        match text {
            Ok(t) => optional_text(members@, key@) == Ok::<Option<Seq<char>>, Seq<char>>(
                crate::models::opt_text(t),
            ),
            Err(c) => optional_text(members@, key@) == Err::<Option<Seq<char>>, Seq<char>>(c@),
        },
{
    match find_member(members, key) {
        None => Ok(None),
        Some(JsonValue::Null) => Ok(None),
        Some(JsonValue::Text(text)) => Ok(Some(text.clone())),
        Some(_) => Err(not_a_string_text(key)),
    }
}

fn history_item(json: &JsonValue) -> (item: Result<MonitoringHistoryItem, String>)
    ensures
        match item {
            Ok(i) => item_of(*json) == Ok::<HistoryItemView, Seq<char>>(i@),
            Err(c) => item_of(*json) == Err::<HistoryItemView, Seq<char>>(c@),
        },
{
    match json {
        JsonValue::Object(members) => {
            let date_status = match text_member(members, FIELD_DATE_STATUS) {
                Ok(text) => text,
                Err(complaint) => return Err(complaint),
            };
            let status_signal_label = match text_member(members, FIELD_STATUS_LABEL) {
                Ok(text) => text,
                Err(complaint) => return Err(complaint),
            };
            let description = match optional_text_member(members, FIELD_DESCRIPTION) {
                Ok(text) => text,
                Err(complaint) => return Err(complaint),
            };
            Ok(MonitoringHistoryItem { date_status, status_signal_label, description })
        },
        _ => Err(String::from_str(NOT_AN_ITEM)),
    }
}

proof fn lemma_items_of_step(items: Seq<JsonValue>, done: int)
    requires
        0 <= done < items.len(),
    ensures
        items_of(items.skip(done)) == match item_of(items[done]) {
            Err(complaint) => Err::<Seq<HistoryItemView>, Seq<char>>(complaint),
            Ok(first) => match items_of(items.skip(done + 1)) {
                Err(complaint) => Err(complaint),
                Ok(rest) => Ok(seq![first] + rest),
            },
        },
{
    assert(items.skip(done)[0] == items[done]);
    assert(items.skip(done).drop_first() =~= items.skip(done + 1));
}

/// The outcome for a whole sequence, from the items already read and the outcome for the
/// rest.
pub open spec fn after(read: Seq<HistoryItemView>, rest: Result<Seq<HistoryItemView>, Seq<char>>)
    -> Result<Seq<HistoryItemView>, Seq<char>> {
    match rest {
        Ok(items) => Ok(read + items),
        Err(complaint) => Err(complaint),
    }
}

fn history_items(items: &Vec<JsonValue>) -> (history: Result<Vec<MonitoringHistoryItem>, String>)
    ensures
        match history {
            Ok(h) => items_of(items@) == Ok::<Seq<HistoryItemView>, Seq<char>>(
                history_views(h@),
            ),
            Err(c) => items_of(items@) == Err::<Seq<HistoryItemView>, Seq<char>>(c@),
        },
{
    let mut history: Vec<MonitoringHistoryItem> = Vec::new();
    let mut i: usize = 0;
    proof {
        assert(items@.skip(0) =~= items@);
        assert(history_views(history@) =~= Seq::<HistoryItemView>::empty());
        match items_of(items@) {
            Ok(all) => assert(Seq::<HistoryItemView>::empty() + all =~= all),
            Err(_) => {},
        }
    }
    while i < items.len()
        invariant
            i <= items.len(),
            items_of(items@) == after(history_views(history@), items_of(items@.skip(i as int))),
        decreases items.len() - i,
    {
        proof {
            lemma_items_of_step(items@, i as int);
        }
        let ghost read = history_views(history@);
        match history_item(&items[i]) {
            Err(complaint) => {
                return Err(complaint);
            },
            Ok(item) => {
                history.push(item);
                proof {
                    assert(history_views(history@) =~= read.push(item@));
                    match items_of(items@.skip(i + 1)) {
                        Ok(rest) => assert(read + (seq![item@] + rest) =~= read.push(item@) + rest),
                        Err(_) => {},
                    }
                }
            },
        }
        i += 1;
    }
    proof {
        assert(items@.skip(i as int) =~= Seq::<JsonValue>::empty());
        assert(history_views(history@) + Seq::<HistoryItemView>::empty() =~= history_views(
            history@,
        ));
    }
    Ok(history)
}

fn history_member(members: &Vec<(String, JsonValue)>) -> (history: Result<
    Option<Vec<MonitoringHistoryItem>>,
    String,
>)
    ensures
        match history {
            Ok(Some(h)) => optional_history(members@) == Ok::<
                Option<Seq<HistoryItemView>>,
                Seq<char>,
            >(Some(history_views(h@))),
            Ok(None) => optional_history(members@) == Ok::<Option<Seq<HistoryItemView>>, Seq<char>>(
                None,
            ),
            Err(c) => optional_history(members@) == Err::<Option<Seq<HistoryItemView>>, Seq<char>>(
                c@,
            ),
        },
{
    match find_member(members, FIELD_HISTORY) {
        None => Ok(None),
        Some(JsonValue::Null) => Ok(None),
        Some(JsonValue::Array(items)) => match history_items(items) {
            Ok(history) => Ok(Some(history)),
            Err(complaint) => Err(complaint),
        },
        Some(_) => Err(not_a_sequence_text(FIELD_HISTORY)),
    }
}

fn record_members(json: &JsonValue) -> (record: Result<MonitoringReportData, String>)
    ensures
        match record {
            Ok(r) => record_of(*json) == Ok::<RecordView, Seq<char>>(r@),
            Err(c) => record_of(*json) == Err::<RecordView, Seq<char>>(c@),
        },
{
    match json {
        JsonValue::Object(members) => {
            let account_inn = match text_member(members, FIELD_ACCOUNT_INN) {
                Ok(text) => text,
                Err(complaint) => return Err(complaint),
            };
            let account_name = match text_member(members, FIELD_ACCOUNT_NAME) {
                Ok(text) => text,
                Err(complaint) => return Err(complaint),
            };
            let industry = match text_member(members, FIELD_INDUSTRY) {
                Ok(text) => text,
                Err(complaint) => return Err(complaint),
            };
            let business_segment_label = match text_member(members, FIELD_SEGMENT) {
                Ok(text) => text,
                Err(complaint) => return Err(complaint),
            };
            let signal_name = match text_member(members, FIELD_SIGNAL_NAME) {
                Ok(text) => text,
                Err(complaint) => return Err(complaint),
            };
            let description = match optional_text_member(members, FIELD_DESCRIPTION) {
                Ok(text) => text,
                Err(complaint) => return Err(complaint),
            };
            let created_by = match optional_text_member(members, FIELD_CREATED_BY) {
                Ok(text) => text,
                Err(complaint) => return Err(complaint),
            };
            let date_status = match text_member(members, FIELD_DATE_STATUS) {
                Ok(text) => text,
                Err(complaint) => return Err(complaint),
            };
            let monitoring_results_history = match history_member(members) {
                Ok(history) => history,
                Err(complaint) => return Err(complaint),
            };
            Ok(
                MonitoringReportData {
                    account_inn,
                    account_name,
                    industry,
                    business_segment_label,
                    signal_name,
                    description,
                    created_by,
                    date_status,
                    monitoring_results_history,
                },
            )
        },
        _ => Err(String::from_str(NOT_A_RECORD)),
    }
}

/// Holds a JSON value to the schema: the record that it stands for, or an input format error
/// with the complaint about the first member that is missing or of the wrong type.
pub fn record_from_json(json: &JsonValue) -> (result: Result<MonitoringReportData, ReportError>)
    ensures
        record_result_view(result) == normalized_json(*json),
{
    match record_members(json) {
        Ok(record) => Ok(record),
        Err(complaint) => Err(ReportError::InputFormatError(complaint)),
    }
}

/// Reads a payload as a record: the record that it stands for, or an input format error with
/// the complaint of the JSON parser or of the schema.
pub fn parse_record(payload: &str) -> (result: Result<MonitoringReportData, ReportError>)
    ensures
        record_result_view(result) == normalized(payload@),
{
    match parse_json(payload) {
        Ok(json) => record_from_json(&json),
        Err(complaint) => Err(ReportError::InputFormatError(complaint)),
    }
}

} // verus!
