use change_streams::identifier::escape_identifier;
use change_streams::parse::parse_change_stream_records;
use serde_json::Value;

fn object(members: Vec<(&str, Value)>) -> Value {
    let mut map = serde_json::Map::new();
    for (name, value) in members {
        map.insert(name.to_string(), value);
    }
    Value::Object(map)
}

fn array(items: Vec<Value>) -> Value {
    Value::Array(items)
}

// Identifier escaping.

#[test]
fn escape_valid_identifier() {
    assert_eq!(escape_identifier("MyStream").unwrap(), "`MyStream`");
}

#[test]
fn escape_alphanumeric_with_underscore() {
    assert_eq!(
        escape_identifier("My_Stream_123").unwrap(),
        "`My_Stream_123`"
    );
}

#[test]
fn reject_empty_name() {
    assert!(escape_identifier("").is_err());
}

#[test]
fn reject_name_with_backtick() {
    assert!(escape_identifier("my`stream").is_err());
}

#[test]
fn reject_name_with_semicolon() {
    assert!(escape_identifier("stream;DROP").is_err());
}

#[test]
fn reject_name_with_space() {
    assert!(escape_identifier("my stream").is_err());
}

// JSON deserialization.

#[test]
fn parse_data_change_record() {
    let json = array(vec![object(vec![(
        "dataChangeRecord",
        object(vec![
            ("commitTimestamp", Value::from("2024-01-15T10:30:00Z")),
            ("recordSequence", Value::from("00000001")),
            ("serverTransactionId", Value::from("txn-123")),
            ("isLastRecordInTransactionInPartition", Value::from(true)),
            ("table", Value::from("Users")),
            ("columnMetadata", array(vec![])),
            ("mods", array(vec![])),
            ("modType", Value::from("INSERT")),
            ("valueCaptureType", Value::from("OLD_AND_NEW_VALUES")),
            ("numberOfRecordsInTransaction", Value::from(1)),
            ("numberOfPartitionsInTransaction", Value::from(1)),
            ("transactionTag", Value::from("")),
            ("isSystemTransaction", Value::from(false)),
        ]),
    )])]);

    let records = parse_change_stream_records(&json).expect("parse should succeed");
    assert_eq!(records.len(), 1);
    assert!(records[0].data_change_record().is_some());
}

#[test]
fn parse_heartbeat_record() {
    let json = array(vec![object(vec![(
        "heartbeatRecord",
        object(vec![("timestamp", Value::from("2024-01-15T10:30:00Z"))]),
    )])]);

    let records = parse_change_stream_records(&json).expect("parse should succeed");
    assert_eq!(records.len(), 1);
    assert!(records[0].heartbeat_record().is_some());
}

#[test]
fn parse_partition_start_record() {
    let json = array(vec![object(vec![(
        "partitionStartRecord",
        object(vec![
            ("startTimestamp", Value::from("2024-01-15T10:30:00Z")),
            ("recordSequence", Value::from("00000001")),
            (
                "partitionTokens",
                array(vec![Value::from("token-1"), Value::from("token-2")]),
            ),
        ]),
    )])]);

    let records = parse_change_stream_records(&json).expect("parse should succeed");
    assert_eq!(records.len(), 1);
    assert!(records[0].partition_start_record().is_some());
}

#[test]
fn parse_partition_end_record() {
    let json = array(vec![object(vec![(
        "partitionEndRecord",
        object(vec![
            ("endTimestamp", Value::from("2024-01-15T10:30:00Z")),
            ("recordSequence", Value::from("00000001")),
            ("partitionToken", Value::from("token-1")),
        ]),
    )])]);

    let records = parse_change_stream_records(&json).expect("parse should succeed");
    assert_eq!(records.len(), 1);
    assert!(records[0].partition_end_record().is_some());
}

#[test]
fn parse_partition_event_record() {
    let json = array(vec![object(vec![(
        "partitionEventRecord",
        object(vec![
            ("commitTimestamp", Value::from("2024-01-15T10:30:00Z")),
            ("recordSequence", Value::from("00000001")),
            ("partitionToken", Value::from("token-1")),
            ("moveInEvents", array(vec![])),
            ("moveOutEvents", array(vec![])),
        ]),
    )])]);

    let records = parse_change_stream_records(&json).expect("parse should succeed");
    assert_eq!(records.len(), 1);
    assert!(records[0].partition_event_record().is_some());
}

#[test]
fn parse_empty_array() {
    let json = array(vec![]);
    let records = parse_change_stream_records(&json).expect("parse should succeed");
    assert!(records.is_empty());
}

#[test]
fn parse_null_value() {
    let json = Value::Null;
    let records = parse_change_stream_records(&json).expect("parse should succeed");
    assert!(records.is_empty());
}

#[test]
fn parse_multiple_records() {
    let json = array(vec![
        object(vec![(
            "dataChangeRecord",
            object(vec![
                ("commitTimestamp", Value::from("2024-01-15T10:30:00Z")),
                ("recordSequence", Value::from("00000001")),
                ("serverTransactionId", Value::from("txn-123")),
                ("isLastRecordInTransactionInPartition", Value::from(true)),
                ("table", Value::from("Users")),
                ("columnMetadata", array(vec![])),
                ("mods", array(vec![])),
                ("modType", Value::from("INSERT")),
                ("valueCaptureType", Value::from("OLD_AND_NEW_VALUES")),
                ("numberOfRecordsInTransaction", Value::from(1)),
                ("numberOfPartitionsInTransaction", Value::from(1)),
                ("transactionTag", Value::from("")),
                ("isSystemTransaction", Value::from(false)),
            ]),
        )]),
        object(vec![(
            "heartbeatRecord",
            object(vec![("timestamp", Value::from("2024-01-15T10:31:00Z"))]),
        )]),
    ]);

    let records = parse_change_stream_records(&json).expect("parse should succeed");
    assert_eq!(records.len(), 2);
    assert!(records[0].data_change_record().is_some());
    assert!(records[1].heartbeat_record().is_some());
}

#[test]
fn parse_invalid_type_returns_error() {
    let json = Value::from("not an array");
    let result = parse_change_stream_records(&json);
    assert!(result.is_err());
}

#[test]
fn parse_data_change_record_with_mods() {
    let json = array(vec![object(vec![(
        "dataChangeRecord",
        object(vec![
            ("commitTimestamp", Value::from("2024-01-15T10:30:00Z")),
            ("recordSequence", Value::from("00000001")),
            ("serverTransactionId", Value::from("txn-456")),
            ("isLastRecordInTransactionInPartition", Value::from(true)),
            ("table", Value::from("Users")),
            (
                "columnMetadata",
                array(vec![
                    object(vec![
                        ("name", Value::from("Id")),
                        ("type", object(vec![("code", Value::from("INT64"))])),
                        ("isPrimaryKey", Value::from(true)),
                        ("ordinalPosition", Value::from(1)),
                    ]),
                    object(vec![
                        ("name", Value::from("Name")),
                        ("type", object(vec![("code", Value::from("STRING"))])),
                        ("isPrimaryKey", Value::from(false)),
                        ("ordinalPosition", Value::from(2)),
                    ]),
                ]),
            ),
            (
                "mods",
                array(vec![object(vec![
                    (
                        "keys",
                        array(vec![object(vec![
                            ("column", Value::from("Id")),
                            ("value", object(vec![("stringValue", Value::from("42"))])),
                        ])]),
                    ),
                    (
                        "newValues",
                        array(vec![object(vec![
                            ("column", Value::from("Name")),
                            ("value", object(vec![("stringValue", Value::from("Alice"))])),
                        ])]),
                    ),
                    ("oldValues", array(vec![])),
                ])]),
            ),
            ("modType", Value::from("INSERT")),
            ("valueCaptureType", Value::from("OLD_AND_NEW_VALUES")),
            ("numberOfRecordsInTransaction", Value::from(1)),
            ("numberOfPartitionsInTransaction", Value::from(1)),
            ("transactionTag", Value::from("my-tag")),
            ("isSystemTransaction", Value::from(false)),
        ]),
    )])]);

    let records = parse_change_stream_records(&json).expect("parse should succeed");
    assert_eq!(records.len(), 1);
    let dcr = records[0].data_change_record().unwrap();
    assert_eq!(dcr.table, "Users");
    assert_eq!(dcr.column_metadata.len(), 2);
    assert_eq!(dcr.mods.len(), 1);
    assert_eq!(dcr.transaction_tag, "my-tag");
}
