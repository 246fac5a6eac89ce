use change_streams::decode::decode_record;
use change_streams::error::Error;
use change_streams::fields::{describe_with, timestamp_from};
use change_streams::identifier::{escape_identifier, invalid_name_error};
use change_streams::json::{value_type_name, JsonNumber, JsonValue};
use change_streams::parse::{parse_change_stream_records, parse_column, record_error};
use change_streams::query::{ChangeStreamQueryBuilder, ParamValue};
use change_streams::record::Timestamp;
use change_streams::stream::{ChangeStreamRecordStream, FetchedRow};
use change_streams::wire::encode_int64;
use serde_json::Value;

fn json(text: &str) -> Value {
    serde_json::from_str(text).unwrap()
}

fn parse_error(text: &str) -> String {
    parse_change_stream_records(&json(text)).unwrap_err().message
}

#[test]
fn every_invalid_character_is_refused() {
    for c in ['`', '\\', '"', '\'', ';', '-', ' ', '\n', '\r', '\t', '\0'] {
        for name in [format!("{c}"), format!("a{c}"), format!("{c}b"), format!("a{c}b")] {
            let error = escape_identifier(&name).unwrap_err();
            assert_eq!(
                error.message,
                format!("change stream name contains invalid characters: {name:?}")
            );
        }
    }
}

#[test]
fn reject_name_with_backslash() {
    assert!(escape_identifier("MyStream\\").is_err());
    assert!(escape_identifier("My\\Stream").is_err());
    assert!(escape_identifier("\\").is_err());
    assert!(ChangeStreamQueryBuilder::new((), "MyStream\\").execute().is_err());
}

#[test]
fn invalid_name_error_holds_the_formatted_name() {
    assert_eq!(
        invalid_name_error("\"a b\"").message,
        "change stream name contains invalid characters: \"a b\""
    );
}

#[test]
fn timestamps_come_from_the_point_in_time() {
    let text = JsonValue::String("2024-01-15T10:30:00Z".to_string());
    assert_eq!(
        timestamp_from(&text, Some((7, 8))).unwrap(),
        Some(Timestamp { seconds: 7, nanos: 8 })
    );
    assert_eq!(
        timestamp_from(&text, None).unwrap_err().message,
        "invalid value: string \"2024-01-15T10:30:00Z\", expected a timestamp"
    );
    assert_eq!(timestamp_from(&JsonValue::Null, None).unwrap(), None);
    assert_eq!(timestamp_from(&JsonValue::Null, Some((7, 8))).unwrap(), None);
    assert_eq!(
        timestamp_from(&JsonValue::Bool(true), Some((7, 8))).unwrap_err().message,
        "invalid type: boolean `true`, expected a timestamp"
    );
}

const VALUES: [&str; 14] = [
    "true",
    "false",
    "0",
    "-3",
    "2147483648",
    "-2147483649",
    "18446744073709551615",
    "1.0",
    "-2.5e-30",
    "1e300",
    "\"plain\"",
    "\"\\t\\\"\\u00e9\\u0301\\u0000\"",
    "[1]",
    "{\"a\":1}",
];

/// What follows the prefix in the error for a record of one member.
fn record_failure(kind: &str, member: &str, value: &str) -> Option<String> {
    let record = format!("[{{\"{kind}\": {{\"{member}\": {value}}}}}]");
    match parse_change_stream_records(&json(&record)) {
        Ok(_) => None,
        Err(error) => Some(
            error
                .message
                .strip_prefix("failed to deserialize ChangeStreamRecord: ")
                .unwrap()
                .to_string(),
        ),
    }
}

#[test]
fn field_errors_are_those_of_serde_json() {
    for value in VALUES {
        let expected = serde_json::from_value::<String>(json(value)).err().map(|e| e.to_string());
        assert_eq!(record_failure("dataChangeRecord", "table", value), expected);
        let expected = serde_json::from_value::<bool>(json(value)).err().map(|e| e.to_string());
        assert_eq!(record_failure("dataChangeRecord", "isSystemTransaction", value), expected);
        let expected = serde_json::from_value::<i32>(json(value)).err().map(|e| e.to_string());
        assert_eq!(
            record_failure("dataChangeRecord", "numberOfRecordsInTransaction", value),
            expected
        );
        let expected = serde_json::from_value::<Vec<String>>(json(value)).err().map(|e| e.to_string());
        assert_eq!(record_failure("partitionStartRecord", "partitionTokens", value), expected);
        let column = format!("[{{\"ordinalPosition\": {value}}}]");
        let expected = serde_json::from_value::<i64>(json(value)).err().map(|e| e.to_string());
        assert_eq!(record_failure("dataChangeRecord", "columnMetadata", &column), expected);
    }
}

#[test]
fn record_errors_are_those_of_serde_json() {
    for value in VALUES {
        let expected = serde_json::from_value::<serde_json::Map<String, Value>>(json(value))
            .err()
            .map(|e| e.to_string().replace("expected a map", "expected struct ChangeStreamRecord"));
        if let Some(expected) = expected {
            assert_eq!(
                parse_error(&format!("[{value}]")),
                format!("failed to deserialize ChangeStreamRecord: {expected}")
            );
        }
    }
    assert_eq!(
        parse_error("[null]"),
        "failed to deserialize ChangeStreamRecord: invalid type: null, expected struct ChangeStreamRecord"
    );
}

#[test]
fn first_bad_member_in_the_order_of_names_decides() {
    assert_eq!(
        parse_error(r#"[{"dataChangeRecord": {"table": 1, "columnMetadata": 2, "mods": 3}}]"#),
        "failed to deserialize ChangeStreamRecord: invalid type: integer `2`, expected a sequence"
    );
}

#[test]
fn decoding_messages_stand_behind_the_prefix() {
    assert_eq!(
        record_error("reason").message,
        "failed to deserialize ChangeStreamRecord: reason"
    );
}

#[test]
fn strings_are_described_by_their_format() {
    let text = JsonValue::String("x".to_string());
    assert_eq!(describe_with(&text, "\"y\""), "string \"y\"");
    assert_eq!(describe_with(&JsonValue::Array(vec![]), "\"y\""), "sequence");
}

#[test]
fn empty_name_has_its_own_message() {
    assert_eq!(
        escape_identifier("").unwrap_err().message,
        "change stream name must not be empty"
    );
}

#[test]
fn invalid_name_is_quoted_in_the_message() {
    assert_eq!(
        escape_identifier("a\tb").unwrap_err().message,
        "change stream name contains invalid characters: \"a\\tb\""
    );
}

#[test]
fn other_characters_are_kept() {
    assert_eq!(escape_identifier("str\u{e9}am.x(y)").unwrap(), "`str\u{e9}am.x(y)`");
}

#[test]
fn different_names_are_quoted_differently() {
    assert_ne!(escape_identifier("A").unwrap(), escape_identifier("a").unwrap());
}

#[test]
fn query_text_is_exact() {
    let request = ChangeStreamQueryBuilder::new("client", "MyStream").execute().unwrap();
    assert_eq!(request.client, "client");
    assert_eq!(
        request.statement.sql,
        "SELECT ChangeRecord FROM READ_`MyStream`(\
         start_timestamp => @start_timestamp, \
         end_timestamp => @end_timestamp, \
         partition_token => @partition_token, \
         read_options => null, \
         heartbeat_milliseconds => @heartbeat_milliseconds\
         )"
    );
    for (name, _) in &request.statement.params {
        assert!(request.statement.sql.contains(&format!("{name} => @{name}")));
    }
}

#[test]
fn unset_parameters_are_null_and_heartbeat_defaults() {
    let request = ChangeStreamQueryBuilder::new((), "MyStream").execute().unwrap();
    let params = request.statement.params;
    assert_eq!(params.len(), 4);
    assert_eq!(params[0].0, "start_timestamp");
    assert!(matches!(params[0].1, ParamValue::Timestamp(None)));
    assert_eq!(params[1].0, "end_timestamp");
    assert!(matches!(params[1].1, ParamValue::Timestamp(None)));
    assert_eq!(params[2].0, "partition_token");
    assert!(matches!(params[2].1, ParamValue::String(None)));
    assert_eq!(params[3].0, "heartbeat_milliseconds");
    assert!(matches!(params[3].1, ParamValue::Int64(10_000)));
}

#[test]
fn set_parameters_are_bound_and_stay_out_of_the_text() {
    let start = time::OffsetDateTime::from_unix_timestamp(1_705_314_600).unwrap();
    let end = time::OffsetDateTime::from_unix_timestamp(1_705_318_200).unwrap();
    let plain = ChangeStreamQueryBuilder::new((), "S").execute().unwrap();
    let request = ChangeStreamQueryBuilder::new((), "S")
        .with_partition_token("first")
        .with_start_timestamp(start)
        .with_end_timestamp(end)
        .with_partition_token("token-1")
        .with_heartbeat_milliseconds(-1)
        .execute()
        .unwrap();
    assert_eq!(request.statement.sql, plain.statement.sql);
    let params = request.statement.params;
    assert!(matches!(params[0].1, ParamValue::Timestamp(Some(t)) if t == start));
    assert!(matches!(params[1].1, ParamValue::Timestamp(Some(t)) if t == end));
    assert!(matches!(&params[2].1, ParamValue::String(Some(t)) if t == "token-1"));
    assert!(matches!(params[3].1, ParamValue::Int64(-1)));
}

#[test]
fn invalid_stream_name_sends_nothing() {
    let error = ChangeStreamQueryBuilder::new((), "a;b").execute().unwrap_err();
    assert_eq!(
        error.message,
        "change stream name contains invalid characters: \"a;b\""
    );
}

#[test]
fn execute_end_to_end_scenario() {
    let request = ChangeStreamQueryBuilder::new((), "MyStream")
        .with_heartbeat_milliseconds(5_000)
        .execute()
        .unwrap();
    assert!(request.statement.sql.contains("READ_`MyStream`"));
    assert!(request.statement.sql.contains("start_timestamp => @start_timestamp"));
    let (name, heartbeat) = &request.statement.params[3];
    assert_eq!(name, "heartbeat_milliseconds");
    assert_eq!(heartbeat.int64_text(), Some("5000".to_string()));

    let reply: Result<&str, String> = Ok("rows");
    let mut stream = ChangeStreamRecordStream::open(reply).unwrap();
    let row: FetchedRow<String> =
        FetchedRow::Column(json(r#"[{"heartbeatRecord":{"timestamp":"2024-01-15T10:30:00Z"}}]"#));
    let records = stream.next(row).expect("should have one row").unwrap();
    assert_eq!(records.len(), 1);
    let heartbeat = records[0].heartbeat_record().expect("should be a heartbeat record");
    assert!(heartbeat.timestamp.is_some(), "timestamp should be present");
    assert!(stream.next(FetchedRow::<String>::Exhausted).is_none());
}

#[test]
fn only_integers_have_an_integer_text() {
    assert_eq!(ParamValue::Int64(-12).int64_text(), Some("-12".to_string()));
    assert_eq!(ParamValue::String(Some("12".to_string())).int64_text(), None);
    assert_eq!(ParamValue::Timestamp(None).int64_text(), None);
}

#[test]
fn service_errors_are_passed_on() {
    let refused: Result<(), u32> = Err(7);
    assert!(matches!(ChangeStreamRecordStream::open(refused), Err(Error::Service(7))));
    let mut stream = ChangeStreamRecordStream { result_set: () };
    assert!(matches!(stream.next(FetchedRow::RowError(8)), Some(Err(Error::Service(8)))));
    assert!(matches!(stream.next(FetchedRow::ColumnError(9)), Some(Err(Error::Service(9)))));
}

#[test]
fn bad_column_is_an_internal_error_of_the_stream() {
    let mut stream = ChangeStreamRecordStream { result_set: 3 };
    let row: FetchedRow<u32> = FetchedRow::Column(json("true"));
    match stream.next(row) {
        Some(Err(Error::Internal(error))) => assert_eq!(
            error.message,
            "expected array for ChangeRecord column, got: bool"
        ),
        _ => panic!("an internal error is expected"),
    }
    assert_eq!(stream.result_set, 3);
}

#[test]
fn column_of_each_wrong_kind_is_named() {
    for (text, kind) in [
        ("true", "bool"),
        ("1", "number"),
        ("1.5", "number"),
        ("\"x\"", "string"),
        ("{}", "object"),
    ] {
        assert_eq!(
            parse_error(text),
            format!("expected array for ChangeRecord column, got: {kind}")
        );
    }
}

#[test]
fn every_kind_has_its_name() {
    assert_eq!(value_type_name(&JsonValue::Null), "null");
    assert_eq!(value_type_name(&JsonValue::Bool(false)), "bool");
    let number = JsonNumber { text: "1".to_string(), is_float: false, integer: Some(1) };
    assert_eq!(value_type_name(&JsonValue::Number(number)), "number");
    assert_eq!(value_type_name(&JsonValue::String(String::new())), "string");
    assert_eq!(value_type_name(&JsonValue::Array(vec![])), "array");
    assert_eq!(value_type_name(&JsonValue::Object(vec![])), "object");
}

#[test]
fn first_bad_record_decides_the_error() {
    assert_eq!(
        parse_error(r#"[{}, 5, "x"]"#),
        "failed to deserialize ChangeStreamRecord: invalid type: integer `5`, expected struct ChangeStreamRecord"
    );
}

#[test]
fn wrong_field_types_are_errors() {
    for (record, message) in [
        (
            r#"{"dataChangeRecord":{"table":1}}"#,
            "invalid type: integer `1`, expected a string",
        ),
        (
            r#"{"dataChangeRecord":{"isSystemTransaction":"no"}}"#,
            "invalid type: string \"no\", expected a boolean",
        ),
        (
            r#"{"dataChangeRecord":{"numberOfRecordsInTransaction":2147483648}}"#,
            "invalid value: integer `2147483648`, expected i32",
        ),
        (
            r#"{"dataChangeRecord":{"numberOfRecordsInTransaction":1.5}}"#,
            "invalid type: floating point `1.5`, expected i32",
        ),
        (
            r#"{"dataChangeRecord":{"columnMetadata":[{"ordinalPosition":9223372036854775808}]}}"#,
            "invalid value: integer `9223372036854775808`, expected i64",
        ),
        (
            r#"{"dataChangeRecord":{"columnMetadata":[{"type":"INT64"}]}}"#,
            "invalid type: string \"INT64\", expected struct Type",
        ),
        (
            r#"{"dataChangeRecord":{"mods":{}}}"#,
            "invalid type: map, expected a sequence",
        ),
        (
            r#"{"dataChangeRecord":{"mods":[{"keys":[null]}]}}"#,
            "invalid type: null, expected struct ModValue",
        ),
        (
            r#"{"heartbeatRecord":{"timestamp":"yesterday"}}"#,
            "invalid value: string \"yesterday\", expected a timestamp",
        ),
        (
            r#"{"heartbeatRecord":{"timestamp":12}}"#,
            "invalid type: integer `12`, expected a timestamp",
        ),
        (
            r#"{"partitionStartRecord":{"partitionTokens":["a",1]}}"#,
            "invalid type: integer `1`, expected a string",
        ),
        (
            r#"{"partitionEndRecord":[]}"#,
            "invalid type: sequence, expected struct PartitionEndRecord",
        ),
        (
            r#"{"heartbeatRecord":{},"partitionEndRecord":{}}"#,
            "more than one kind of record is set",
        ),
    ] {
        assert_eq!(
            parse_error(&format!("[{record}]")),
            format!("failed to deserialize ChangeStreamRecord: {message}")
        );
    }
}

#[test]
fn fields_of_a_data_change_record_are_kept() {
    let value = json(
        r#"[{"dataChangeRecord": {
            "commitTimestamp": "2024-01-15T12:30:00.5+02:00",
            "recordSequence": "00000001",
            "serverTransactionId": "txn",
            "isLastRecordInTransactionInPartition": true,
            "table": "Users",
            "columnMetadata": [{"name": "Id", "type": {"code": "INT64"}, "isPrimaryKey": true, "ordinalPosition": -9223372036854775808}],
            "mods": [{"keys": [{"column": "Id", "value": 42.5}], "newValues": [], "oldValues": [{}, {}]}],
            "modType": "UPDATE",
            "valueCaptureType": "NEW_ROW",
            "numberOfRecordsInTransaction": -2147483648,
            "numberOfPartitionsInTransaction": 2147483647,
            "transactionTag": "tag",
            "isSystemTransaction": true
        }}]"#,
    );
    let records = parse_change_stream_records(&value).unwrap();
    let record = records[0].data_change_record().unwrap();
    assert_eq!(
        record.commit_timestamp,
        Some(Timestamp { seconds: 1_705_314_600, nanos: 500_000_000 })
    );
    assert_eq!(record.record_sequence, "00000001");
    assert_eq!(record.server_transaction_id, "txn");
    assert!(record.is_last_record_in_transaction_in_partition);
    assert_eq!(record.table, "Users");
    assert_eq!(record.column_metadata.len(), 1);
    assert_eq!(record.column_metadata[0].name, "Id");
    assert!(record.column_metadata[0].is_primary_key);
    assert_eq!(record.column_metadata[0].ordinal_position, i64::MIN);
    match &record.column_metadata[0].column_type {
        Some(JsonValue::Object(members)) => {
            assert_eq!(members.len(), 1);
            assert_eq!(members[0].0, "code");
            assert!(matches!(&members[0].1, JsonValue::String(code) if code == "INT64"));
        }
        _ => panic!("a type is an object"),
    }
    assert_eq!(record.mods.len(), 1);
    assert_eq!(record.mods[0].keys.len(), 1);
    match &record.mods[0].keys[0] {
        JsonValue::Object(members) => {
            assert_eq!(members.len(), 2);
            assert_eq!(members[0].0, "column");
            assert_eq!(members[1].0, "value");
            assert!(matches!(
                &members[1].1,
                JsonValue::Number(n) if n.text == "42.5" && n.integer.is_none()
            ));
        }
        _ => panic!("a key is an object"),
    }
    assert!(record.mods[0].new_values.is_empty());
    assert_eq!(record.mods[0].old_values.len(), 2);
    assert_eq!(record.mod_type, "UPDATE");
    assert_eq!(record.value_capture_type, "NEW_ROW");
    assert_eq!(record.number_of_records_in_transaction, i32::MIN);
    assert_eq!(record.number_of_partitions_in_transaction, i32::MAX);
    assert_eq!(record.transaction_tag, "tag");
    assert!(record.is_system_transaction);
}

#[test]
fn fields_of_the_other_records_are_kept() {
    let value = json(
        r#"[
            {"heartbeatRecord": {"timestamp": "1970-01-01T00:00:01Z"}},
            {"partitionStartRecord": {"startTimestamp": "1970-01-01T00:00:02Z", "recordSequence": "1", "partitionTokens": ["a", "b"]}},
            {"partitionEndRecord": {"endTimestamp": "1970-01-01T00:00:03Z", "recordSequence": "2", "partitionToken": "c"}},
            {"partitionEventRecord": {"commitTimestamp": "1970-01-01T00:00:04Z", "recordSequence": "3", "partitionToken": "d", "moveInEvents": [{}], "moveOutEvents": [{}, {}]}}
        ]"#,
    );
    let records = parse_change_stream_records(&value).unwrap();
    let at = |seconds| Some(Timestamp { seconds, nanos: 0 });
    assert_eq!(records.len(), 4);
    assert_eq!(records[0].heartbeat_record().unwrap().timestamp, at(1));
    let start = records[1].partition_start_record().unwrap();
    assert_eq!(start.start_timestamp, at(2));
    assert_eq!(start.record_sequence, "1");
    assert_eq!(start.partition_tokens, vec!["a", "b"]);
    let end = records[2].partition_end_record().unwrap();
    assert_eq!(end.end_timestamp, at(3));
    assert_eq!(end.record_sequence, "2");
    assert_eq!(end.partition_token, "c");
    let event = records[3].partition_event_record().unwrap();
    assert_eq!(event.commit_timestamp, at(4));
    assert_eq!(event.record_sequence, "3");
    assert_eq!(event.partition_token, "d");
    assert_eq!(event.move_in_events.len(), 1);
    assert_eq!(event.move_out_events.len(), 2);
}

#[test]
fn missing_and_null_fields_take_defaults() {
    for text in [
        r#"[{"dataChangeRecord": {}}]"#,
        r#"[{"dataChangeRecord": {"commitTimestamp": null, "table": null, "mods": null, "numberOfRecordsInTransaction": null, "isSystemTransaction": null}, "heartbeatRecord": null}]"#,
    ] {
        let records = parse_change_stream_records(&json(text)).unwrap();
        let record = records[0].data_change_record().unwrap();
        assert_eq!(record.commit_timestamp, None);
        assert_eq!(record.table, "");
        assert!(record.mods.is_empty());
        assert_eq!(record.number_of_records_in_transaction, 0);
        assert!(!record.is_system_transaction);
        assert!(records[0].heartbeat_record().is_none());
        assert!(records[0].partition_start_record().is_none());
        assert!(records[0].partition_end_record().is_none());
        assert!(records[0].partition_event_record().is_none());
    }
}

#[test]
fn unknown_members_are_ignored() {
    let records =
        parse_change_stream_records(&json(r#"[{"zz": [1], "heartbeatRecord": {"aa": {}}}]"#)).unwrap();
    assert_eq!(records[0].heartbeat_record().unwrap().timestamp, None);
    let records = parse_change_stream_records(&json(r#"[{"zz": 1}]"#)).unwrap();
    assert!(records[0].record.is_none());
}

#[test]
fn joined_columns_join_their_records() {
    let one = json(r#"[{"heartbeatRecord": {}}]"#);
    let two = json(r#"[{"partitionEndRecord": {}}]"#);
    let both = json(r#"[{"heartbeatRecord": {}}, {"partitionEndRecord": {}}]"#);
    let a = parse_change_stream_records(&one).unwrap();
    let b = parse_change_stream_records(&two).unwrap();
    let c = parse_change_stream_records(&both).unwrap();
    assert_eq!(a.len() + b.len(), c.len());
    assert!(c[0].heartbeat_record().is_some());
    assert!(c[1].partition_end_record().is_some());
}

#[test]
fn plain_json_values_parse_like_serde_values() {
    let heartbeat = JsonValue::Object(vec![(
        "heartbeatRecord".to_string(),
        JsonValue::Object(vec![(
            "timestamp".to_string(),
            JsonValue::String("2024-01-15T10:30:00Z".to_string()),
        )]),
    )]);
    let record = decode_record(&heartbeat).unwrap();
    assert_eq!(
        record.heartbeat_record().unwrap().timestamp,
        Some(Timestamp { seconds: 1_705_314_600, nanos: 0 })
    );
    let copy = JsonValue::Array(vec![heartbeat.clone(), heartbeat]);
    assert_eq!(parse_column(&copy).unwrap().len(), 2);
    assert!(parse_column(&JsonValue::Null).unwrap().is_empty());
}

#[test]
fn serde_values_are_read_whole() {
    let value = json(r#"{"a": [null, true, -7, 18446744073709551615, "x", {}]}"#);
    let members = match JsonValue::from_serde(&value) {
        JsonValue::Object(members) => members,
        _ => panic!("an object is read as an object"),
    };
    assert_eq!(members.len(), 1);
    assert_eq!(members[0].0, "a");
    let items = match &members[0].1 {
        JsonValue::Array(items) => items,
        _ => panic!("an array is read as an array"),
    };
    assert_eq!(items.len(), 6);
    assert!(matches!(items[0], JsonValue::Null));
    assert!(matches!(items[1], JsonValue::Bool(true)));
    assert!(matches!(&items[2], JsonValue::Number(n) if n.text == "-7" && n.integer == Some(-7)));
    assert!(matches!(
        &items[3],
        JsonValue::Number(n) if n.text == "18446744073709551615" && n.integer.is_none()
    ));
    assert!(matches!(&items[4], JsonValue::String(s) if s == "x"));
    assert!(matches!(&items[5], JsonValue::Object(m) if m.is_empty()));
}

#[test]
fn integers_are_written_in_decimal() {
    assert_eq!(encode_int64(0), "0");
    assert_eq!(encode_int64(10_000), "10000");
    assert_eq!(encode_int64(-305), "-305");
    assert_eq!(encode_int64(1_234_567_890), "1234567890");
    assert_eq!(encode_int64(i64::MAX), "9223372036854775807");
    assert_eq!(encode_int64(i64::MIN), "-9223372036854775808");
}
