use report_generator::error::ReportError;
use report_generator::json::{parse_json, JsonValue};
use report_generator::models::{MonitoringHistoryItem, MonitoringReportData};
use report_generator::normalizer::{find_member, parse_record, record_from_json};

const FULL: &str = r#"{
    "account_inn": "7701234567",
    "account_name": "Romashka LLC",
    "industry": "Retail",
    "business_segment_label": "SME",
    "signal_name": "Late payments",
    "description": "Line A\nLine B",
    "created_by": "Ivanov",
    "date_status": "2023-12-31",
    "monitoring_results_history": [
        {"date_status": "2023-10-31", "status_signal_label": "Open", "description": "first"},
        {"date_status": "2023-11-30", "status_signal_label": "Closed", "description": null},
        {"date_status": "2023-12-31", "status_signal_label": "Open"}
    ],
    "unknown": 17
}"#;

fn text(value: &str) -> JsonValue {
    JsonValue::Text(value.to_string())
}

fn object(members: Vec<(&str, JsonValue)>) -> JsonValue {
    JsonValue::Object(members.into_iter().map(|(k, v)| (k.to_string(), v)).collect())
}

fn required() -> Vec<(&'static str, JsonValue)> {
    vec![
        ("account_inn", text("1")),
        ("account_name", text("2")),
        ("industry", text("3")),
        ("business_segment_label", text("4")),
        ("signal_name", text("5")),
        ("date_status", text("6")),
    ]
}

fn without(key: &str) -> JsonValue {
    object(required().into_iter().filter(|(k, _)| *k != key).collect())
}

fn with(key: &'static str, value: JsonValue) -> JsonValue {
    let mut members: Vec<(&str, JsonValue)> =
        required().into_iter().filter(|(k, _)| *k != key).collect();
    members.push((key, value));
    object(members)
}

fn minimal() -> MonitoringReportData {
    MonitoringReportData {
        account_inn: "1".to_string(),
        account_name: "2".to_string(),
        industry: "3".to_string(),
        business_segment_label: "4".to_string(),
        signal_name: "5".to_string(),
        description: None,
        created_by: None,
        date_status: "6".to_string(),
        monitoring_results_history: None,
    }
}

fn complaint(result: Result<MonitoringReportData, ReportError>) -> String {
    match result {
        Err(ReportError::InputFormatError(complaint)) => complaint,
        other => panic!("an input format error was expected, not {:?}", other),
    }
}

#[test]
fn full_payload_gives_the_record_with_its_history() {
    let record = parse_record(FULL).unwrap();
    assert_eq!(
        record,
        MonitoringReportData {
            account_inn: "7701234567".to_string(),
            account_name: "Romashka LLC".to_string(),
            industry: "Retail".to_string(),
            business_segment_label: "SME".to_string(),
            signal_name: "Late payments".to_string(),
            description: Some("Line A\nLine B".to_string()),
            created_by: Some("Ivanov".to_string()),
            date_status: "2023-12-31".to_string(),
            monitoring_results_history: Some(vec![
                MonitoringHistoryItem {
                    date_status: "2023-10-31".to_string(),
                    status_signal_label: "Open".to_string(),
                    description: Some("first".to_string()),
                },
                MonitoringHistoryItem {
                    date_status: "2023-11-30".to_string(),
                    status_signal_label: "Closed".to_string(),
                    description: None,
                },
                MonitoringHistoryItem {
                    date_status: "2023-12-31".to_string(),
                    status_signal_label: "Open".to_string(),
                    description: None,
                },
            ]),
        }
    );
}

#[test]
fn payload_without_account_inn_is_rejected() {
    let payload = r#"{
        "account_name": "Romashka LLC",
        "industry": "Retail",
        "business_segment_label": "SME",
        "signal_name": "Late payments",
        "date_status": "2023-12-31"
    }"#;
    assert_eq!(
        parse_record(payload),
        Err(ReportError::InputFormatError("missing field `account_inn`".to_string()))
    );
}

#[test]
fn each_required_member_is_asked_for() {
    for key in [
        "account_inn",
        "account_name",
        "industry",
        "business_segment_label",
        "signal_name",
        "date_status",
    ] {
        assert_eq!(
            complaint(record_from_json(&without(key))),
            format!("missing field `{}`", key)
        );
    }
}

#[test]
fn optional_members_may_be_missing_or_null() {
    assert_eq!(record_from_json(&object(required())), Ok(minimal()));
    let mut members = required();
    members.push(("description", JsonValue::Null));
    members.push(("created_by", JsonValue::Null));
    members.push(("monitoring_results_history", JsonValue::Null));
    assert_eq!(record_from_json(&object(members)), Ok(minimal()));
}

#[test]
fn empty_history_stays_an_empty_history() {
    let mut expected = minimal();
    expected.monitoring_results_history = Some(vec![]);
    assert_eq!(
        record_from_json(&with("monitoring_results_history", JsonValue::Array(vec![]))),
        Ok(expected)
    );
}

#[test]
fn mistyped_members_are_rejected() {
    assert_eq!(
        complaint(record_from_json(&with("account_inn", JsonValue::Number))),
        "invalid type for field `account_inn`: expected a string"
    );
    assert_eq!(
        complaint(record_from_json(&with("industry", JsonValue::Null))),
        "invalid type for field `industry`: expected a string"
    );
    assert_eq!(
        complaint(record_from_json(&with("description", JsonValue::Bool(true)))),
        "invalid type for field `description`: expected a string"
    );
    assert_eq!(
        complaint(record_from_json(&with("created_by", JsonValue::Array(vec![])))),
        "invalid type for field `created_by`: expected a string"
    );
    assert_eq!(
        complaint(record_from_json(&with("monitoring_results_history", text("none")))),
        "invalid type for field `monitoring_results_history`: expected a sequence"
    );
}

#[test]
fn history_items_are_held_to_their_schema() {
    let good = object(vec![("date_status", text("d")), ("status_signal_label", text("s"))]);
    let no_label = object(vec![("date_status", text("d"))]);
    let no_date = object(vec![("status_signal_label", text("s"))]);
    assert_eq!(
        complaint(record_from_json(&with(
            "monitoring_results_history",
            JsonValue::Array(vec![good, no_label, no_date])
        ))),
        "missing field `status_signal_label`"
    );
    assert_eq!(
        complaint(record_from_json(&with(
            "monitoring_results_history",
            JsonValue::Array(vec![JsonValue::Number])
        ))),
        "invalid type: expected a history item"
    );
    assert_eq!(
        complaint(record_from_json(&with(
            "monitoring_results_history",
            JsonValue::Array(vec![object(vec![
                ("date_status", text("d")),
                ("status_signal_label", text("s")),
                ("description", JsonValue::Number),
            ])])
        ))),
        "invalid type for field `description`: expected a string"
    );
}

#[test]
fn first_failing_member_in_field_order_gives_the_complaint() {
    let json = object(vec![("date_status", JsonValue::Number), ("account_inn", text("1"))]);
    assert_eq!(complaint(record_from_json(&json)), "missing field `account_name`");
}

#[test]
fn only_an_object_is_a_record() {
    for json in [
        JsonValue::Null,
        JsonValue::Bool(false),
        JsonValue::Number,
        text("record"),
        JsonValue::Array(vec![]),
    ] {
        assert_eq!(complaint(record_from_json(&json)), "invalid type: expected a record");
    }
    assert_eq!(complaint(parse_record("[1, 2]")), "invalid type: expected a record");
}

#[test]
fn text_that_is_no_json_is_rejected_with_the_parsers_complaint() {
    assert_eq!(complaint(parse_record("")), "EOF while parsing a value at line 1 column 0");
    assert_eq!(complaint(parse_record("{\"account_inn\": ")), "EOF while parsing a value at line 1 column 16");
    assert_eq!(complaint(parse_record("not json")), "expected ident at line 1 column 2");
}

#[test]
fn first_of_two_members_with_one_key_counts() {
    let members = vec![
        ("a".to_string(), text("first")),
        ("b".to_string(), JsonValue::Null),
        ("a".to_string(), text("second")),
    ];
    assert_eq!(find_member(&members, "a"), Some(&text("first")));
    assert_eq!(find_member(&members, "b"), Some(&JsonValue::Null));
    assert_eq!(find_member(&members, "c"), None);
    assert_eq!(find_member(&Vec::new(), "a"), None);
}

#[test]
fn parse_json_gives_the_tree_of_the_text() {
    assert_eq!(
        parse_json(r#"{"b": [null, true, 1.5, "x", {}], "a": {"k": "v"}}"#),
        Ok(object(vec![
            ("a", object(vec![("k", text("v"))])),
            (
                "b",
                JsonValue::Array(vec![
                    JsonValue::Null,
                    JsonValue::Bool(true),
                    JsonValue::Number,
                    text("x"),
                    object(vec![]),
                ])
            ),
        ]))
    );
    assert_eq!(parse_json("\"\\u0416\""), Ok(text("Ж")));
    assert_eq!(parse_json("{"), Err("EOF while parsing an object at line 1 column 1".to_string()));
}

#[test]
fn messages_tell_the_kinds_apart() {
    assert_eq!(
        ReportError::InputFormatError("missing field `account_inn`".to_string()).message(),
        "InputFormatError: missing field `account_inn`"
    );
    assert_eq!(
        ReportError::PackagingError("disk".to_string()).message(),
        "PackagingError: disk"
    );
}
