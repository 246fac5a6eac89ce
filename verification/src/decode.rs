//! Decoding of change stream records from JSON.
//!
//! The JSON form of a record is an object whose members carry the fields under their
//! lower-camel-case names. A member that is missing or `null` leaves its field at the default;
//! members of other names are ignored; a member of the wrong type is an error, in the words of
//! `serde_json`. The members are read in the order of their names, in which a `serde_json::Map`
//! yields them, and the first error is returned.

use crate::error::{same_outcome, InternalError};
use crate::fields::{
    bool_field, find_set, i32_field, i64_field, law_other_members_do_not_matter, list_field, member,
    object_field, object_item, object_members, read_bool, read_i32, read_i64, read_list,
    read_members, read_object, read_objects, read_string, read_strings, read_timestamp,
    string_field, string_item, timestamp_field, Members,
};
use crate::json::{Json, JsonValue};
use crate::record::{
    ChangeStreamRecord, ColumnMetadata, ColumnMetadataView, DataChangeRecord, DataChangeRecordView,
    HeartbeatRecord, Mod, ModView, PartitionEndRecord, PartitionEndRecordView, PartitionEventRecord,
    PartitionEventRecordView, PartitionStartRecord, PartitionStartRecordView, Record, RecordView,
};
use vstd::prelude::*;

verus! {

/// The column that `json` describes.
pub open spec fn column_metadata(json: Json) -> Result<ColumnMetadataView, Seq<char>> {
    match object_members("struct ColumnMetadata"@, json) {
        Err(message) => Err(message),
        Ok(members) => {
            let is_primary_key = bool_field(members, "isPrimaryKey"@);
            let name = string_field(members, "name"@);
            let ordinal_position = i64_field(members, "ordinalPosition"@);
            let column_type = object_field(members, "type"@, "struct Type"@);
            if is_primary_key is Err {
                Err(is_primary_key->Err_0)
            } else if name is Err {
                Err(name->Err_0)
            } else if ordinal_position is Err {
                Err(ordinal_position->Err_0)
            } else if column_type is Err {
                Err(column_type->Err_0)
            } else {
                Ok(
                    ColumnMetadataView {
                        name: name->Ok_0,
                        column_type: column_type->Ok_0,
                        is_primary_key: is_primary_key->Ok_0,
                        ordinal_position: ordinal_position->Ok_0,
                    },
                )
            }
        },
    }
}

/// Decodes the description of a column.
pub fn decode_column_metadata(json: &JsonValue) -> (decoded: Result<ColumnMetadata, InternalError>)
    ensures
        same_outcome(decoded, column_metadata(json.deep_view())),
{
    let members = read_members("struct ColumnMetadata", json)?;
    let is_primary_key = read_bool(members, "isPrimaryKey")?;
    let name = read_string(members, "name")?;
    let ordinal_position = read_i64(members, "ordinalPosition")?;
    let column_type = read_object(members, "type", "struct Type")?;
    Ok(ColumnMetadata { name, column_type, is_primary_key, ordinal_position })
}

/// The row change that `json` describes.
pub open spec fn row_mod(json: Json) -> Result<ModView, Seq<char>> {
    match object_members("struct Mod"@, json) {
        Err(message) => Err(message),
        Ok(members) => {
            let keys = list_field(
                members,
                "keys"@,
                |json: Json| object_item("struct ModValue"@, json),
            );
            let new_values = list_field(
                members,
                "newValues"@,
                |json: Json| object_item("struct ModValue"@, json),
            );
            let old_values = list_field(
                members,
                "oldValues"@,
                |json: Json| object_item("struct ModValue"@, json),
            );
            if keys is Err {
                Err(keys->Err_0)
            } else if new_values is Err {
                Err(new_values->Err_0)
            } else if old_values is Err {
                Err(old_values->Err_0)
            } else {
                Ok(
                    ModView {
                        keys: keys->Ok_0,
                        old_values: old_values->Ok_0,
                        new_values: new_values->Ok_0,
                    },
                )
            }
        },
    }
}

/// Decodes the change of one row.
pub fn decode_mod(json: &JsonValue) -> (decoded: Result<Mod, InternalError>)
    ensures
        same_outcome(decoded, row_mod(json.deep_view())),
{
    let members = read_members("struct Mod", json)?;
    let keys = read_objects(members, "keys", "struct ModValue")?;
    let new_values = read_objects(members, "newValues", "struct ModValue")?;
    let old_values = read_objects(members, "oldValues", "struct ModValue")?;
    Ok(Mod { keys, old_values, new_values })
}

/// The data change record that `json` describes.
pub open spec fn data_change_record(json: Json) -> Result<DataChangeRecordView, Seq<char>> {
    match object_members("struct DataChangeRecord"@, json) {
        Err(message) => Err(message),
        Ok(members) => {
            let column_metadata = list_field(
                members,
                "columnMetadata"@,
                |json: Json| column_metadata(json),
            );
            let commit_timestamp = timestamp_field(members, "commitTimestamp"@);
            let is_last_record_in_transaction_in_partition = bool_field(
                members,
                "isLastRecordInTransactionInPartition"@,
            );
            let is_system_transaction = bool_field(members, "isSystemTransaction"@);
            let mod_type = string_field(members, "modType"@);
            let mods = list_field(members, "mods"@, |json: Json| row_mod(json));
            let number_of_partitions_in_transaction = i32_field(
                members,
                "numberOfPartitionsInTransaction"@,
            );
            let number_of_records_in_transaction = i32_field(
                members,
                "numberOfRecordsInTransaction"@,
            );
            let record_sequence = string_field(members, "recordSequence"@);
            let server_transaction_id = string_field(members, "serverTransactionId"@);
            let table = string_field(members, "table"@);
            let transaction_tag = string_field(members, "transactionTag"@);
            let value_capture_type = string_field(members, "valueCaptureType"@);
            if column_metadata is Err {
                Err(column_metadata->Err_0)
            } else if commit_timestamp is Err {
                Err(commit_timestamp->Err_0)
            } else if is_last_record_in_transaction_in_partition is Err {
                Err(is_last_record_in_transaction_in_partition->Err_0)
            } else if is_system_transaction is Err {
                Err(is_system_transaction->Err_0)
            } else if mod_type is Err {
                Err(mod_type->Err_0)
            } else if mods is Err {
                Err(mods->Err_0)
            } else if number_of_partitions_in_transaction is Err {
                Err(number_of_partitions_in_transaction->Err_0)
            } else if number_of_records_in_transaction is Err {
                Err(number_of_records_in_transaction->Err_0)
            } else if record_sequence is Err {
                Err(record_sequence->Err_0)
            } else if server_transaction_id is Err {
                Err(server_transaction_id->Err_0)
            } else if table is Err {
                Err(table->Err_0)
            } else if transaction_tag is Err {
                Err(transaction_tag->Err_0)
            } else if value_capture_type is Err {
                Err(value_capture_type->Err_0)
            } else {
                Ok(
                    DataChangeRecordView {
                        commit_timestamp: commit_timestamp->Ok_0,
                        record_sequence: record_sequence->Ok_0,
                        server_transaction_id: server_transaction_id->Ok_0,
                        is_last_record_in_transaction_in_partition:
                            is_last_record_in_transaction_in_partition->Ok_0,
                        table: table->Ok_0,
                        column_metadata: column_metadata->Ok_0,
                        mods: mods->Ok_0,
                        mod_type: mod_type->Ok_0,
                        value_capture_type: value_capture_type->Ok_0,
                        number_of_records_in_transaction: number_of_records_in_transaction->Ok_0,
                        number_of_partitions_in_transaction:
                            number_of_partitions_in_transaction->Ok_0,
                        transaction_tag: transaction_tag->Ok_0,
                        is_system_transaction: is_system_transaction->Ok_0,
                    },
                )
            }
        },
    }
}

/// Decodes a data change record.
pub fn decode_data_change_record(json: &JsonValue) -> (decoded: Result<
    DataChangeRecord,
    InternalError,
>)
    ensures
        same_outcome(decoded, data_change_record(json.deep_view())),
{
    let members = read_members("struct DataChangeRecord", json)?;
    let column_metadata = read_list(
        members,
        "columnMetadata",
        decode_column_metadata,
        Ghost(|json: Json| column_metadata(json)),
    )?;
    let commit_timestamp = read_timestamp(members, "commitTimestamp")?;
    let is_last_record_in_transaction_in_partition = read_bool(
        members,
        "isLastRecordInTransactionInPartition",
    )?;
    let is_system_transaction = read_bool(members, "isSystemTransaction")?;
    let mod_type = read_string(members, "modType")?;
    let mods = read_list(members, "mods", decode_mod, Ghost(|json: Json| row_mod(json)))?;
    let number_of_partitions_in_transaction = read_i32(members, "numberOfPartitionsInTransaction")?;
    let number_of_records_in_transaction = read_i32(members, "numberOfRecordsInTransaction")?;
    let record_sequence = read_string(members, "recordSequence")?;
    let server_transaction_id = read_string(members, "serverTransactionId")?;
    let table = read_string(members, "table")?;
    let transaction_tag = read_string(members, "transactionTag")?;
    let value_capture_type = read_string(members, "valueCaptureType")?;
    Ok(
        DataChangeRecord {
            commit_timestamp,
            record_sequence,
            server_transaction_id,
            is_last_record_in_transaction_in_partition,
            table,
            column_metadata,
            mods,
            mod_type,
            value_capture_type,
            number_of_records_in_transaction,
            number_of_partitions_in_transaction,
            transaction_tag,
            is_system_transaction,
        },
    )
}

/// The heartbeat record that `json` describes.
pub open spec fn heartbeat_record(json: Json) -> Result<HeartbeatRecord, Seq<char>> {
    match object_members("struct HeartbeatRecord"@, json) {
        Err(message) => Err(message),
        Ok(members) => {
            let timestamp = timestamp_field(members, "timestamp"@);
            if timestamp is Err {
                Err(timestamp->Err_0)
            } else {
                Ok(HeartbeatRecord { timestamp: timestamp->Ok_0 })
            }
        },
    }
}

/// Decodes a heartbeat record.
pub fn decode_heartbeat_record(json: &JsonValue) -> (decoded: Result<
    HeartbeatRecord,
    InternalError,
>)
    ensures
        same_outcome(decoded, heartbeat_record(json.deep_view())),
{
    let members = read_members("struct HeartbeatRecord", json)?;
    let timestamp = read_timestamp(members, "timestamp")?;
    Ok(HeartbeatRecord { timestamp })
}

/// The partition start record that `json` describes.
pub open spec fn partition_start_record(json: Json) -> Result<PartitionStartRecordView, Seq<char>> {
    match object_members("struct PartitionStartRecord"@, json) {
        Err(message) => Err(message),
        Ok(members) => {
            let partition_tokens = list_field(
                members,
                "partitionTokens"@,
                |json: Json| string_item(json),
            );
            let record_sequence = string_field(members, "recordSequence"@);
            let start_timestamp = timestamp_field(members, "startTimestamp"@);
            if partition_tokens is Err {
                Err(partition_tokens->Err_0)
            } else if record_sequence is Err {
                Err(record_sequence->Err_0)
            } else if start_timestamp is Err {
                Err(start_timestamp->Err_0)
            } else {
                Ok(
                    PartitionStartRecordView {
                        start_timestamp: start_timestamp->Ok_0,
                        record_sequence: record_sequence->Ok_0,
                        partition_tokens: partition_tokens->Ok_0,
                    },
                )
            }
        },
    }
}

/// Decodes a partition start record.
pub fn decode_partition_start_record(json: &JsonValue) -> (decoded: Result<
    PartitionStartRecord,
    InternalError,
>)
    ensures
        same_outcome(decoded, partition_start_record(json.deep_view())),
{
    let members = read_members("struct PartitionStartRecord", json)?;
    let partition_tokens = read_strings(members, "partitionTokens")?;
    let record_sequence = read_string(members, "recordSequence")?;
    let start_timestamp = read_timestamp(members, "startTimestamp")?;
    Ok(PartitionStartRecord { start_timestamp, record_sequence, partition_tokens })
}

/// The partition end record that `json` describes.
pub open spec fn partition_end_record(json: Json) -> Result<PartitionEndRecordView, Seq<char>> {
    match object_members("struct PartitionEndRecord"@, json) {
        Err(message) => Err(message),
        Ok(members) => {
            let end_timestamp = timestamp_field(members, "endTimestamp"@);
            let partition_token = string_field(members, "partitionToken"@);
            let record_sequence = string_field(members, "recordSequence"@);
            if end_timestamp is Err {
                Err(end_timestamp->Err_0)
            } else if partition_token is Err {
                Err(partition_token->Err_0)
            } else if record_sequence is Err {
                Err(record_sequence->Err_0)
            } else {
                Ok(
                    PartitionEndRecordView {
                        end_timestamp: end_timestamp->Ok_0,
                        record_sequence: record_sequence->Ok_0,
                        partition_token: partition_token->Ok_0,
                    },
                )
            }
        },
    }
}

/// Decodes a partition end record.
pub fn decode_partition_end_record(json: &JsonValue) -> (decoded: Result<
    PartitionEndRecord,
    InternalError,
>)
    ensures
        same_outcome(decoded, partition_end_record(json.deep_view())),
{
    let members = read_members("struct PartitionEndRecord", json)?;
    let end_timestamp = read_timestamp(members, "endTimestamp")?;
    let partition_token = read_string(members, "partitionToken")?;
    let record_sequence = read_string(members, "recordSequence")?;
    Ok(PartitionEndRecord { end_timestamp, record_sequence, partition_token })
}

/// The partition event record that `json` describes.
pub open spec fn partition_event_record(json: Json) -> Result<PartitionEventRecordView, Seq<char>> {
    match object_members("struct PartitionEventRecord"@, json) {
        Err(message) => Err(message),
        Ok(members) => {
            let commit_timestamp = timestamp_field(members, "commitTimestamp"@);
            let move_in_events = list_field(
                members,
                "moveInEvents"@,
                |json: Json| object_item("struct MoveInEvent"@, json),
            );
            let move_out_events = list_field(
                members,
                "moveOutEvents"@,
                |json: Json| object_item("struct MoveOutEvent"@, json),
            );
            let partition_token = string_field(members, "partitionToken"@);
            let record_sequence = string_field(members, "recordSequence"@);
            if commit_timestamp is Err {
                Err(commit_timestamp->Err_0)
            } else if move_in_events is Err {
                Err(move_in_events->Err_0)
            } else if move_out_events is Err {
                Err(move_out_events->Err_0)
            } else if partition_token is Err {
                Err(partition_token->Err_0)
            } else if record_sequence is Err {
                Err(record_sequence->Err_0)
            } else {
                Ok(
                    PartitionEventRecordView {
                        commit_timestamp: commit_timestamp->Ok_0,
                        record_sequence: record_sequence->Ok_0,
                        partition_token: partition_token->Ok_0,
                        move_in_events: move_in_events->Ok_0,
                        move_out_events: move_out_events->Ok_0,
                    },
                )
            }
        },
    }
}

/// Decodes a partition event record.
pub fn decode_partition_event_record(json: &JsonValue) -> (decoded: Result<
    PartitionEventRecord,
    InternalError,
>)
    ensures
        same_outcome(decoded, partition_event_record(json.deep_view())),
{
    let members = read_members("struct PartitionEventRecord", json)?;
    let commit_timestamp = read_timestamp(members, "commitTimestamp")?;
    let move_in_events = read_objects(members, "moveInEvents", "struct MoveInEvent")?;
    let move_out_events = read_objects(members, "moveOutEvents", "struct MoveOutEvent")?;
    let partition_token = read_string(members, "partitionToken")?;
    let record_sequence = read_string(members, "recordSequence")?;
    Ok(
        PartitionEventRecord {
            commit_timestamp,
            record_sequence,
            partition_token,
            move_in_events,
            move_out_events,
        },
    )
}

/// The number of names in `names` under which `members` holds a value other than `null`.
pub open spec fn count_set(members: Members, names: Seq<Seq<char>>) -> nat
    decreases names.len(),
{
    if names.len() == 0 {
        0
    } else if member(members, names.last()) is Null {
        count_set(members, names.drop_last())
    } else {
        count_set(members, names.drop_last()) + 1
    }
}

/// The names of the members that carry the five kinds of record.
pub open spec fn record_names() -> Seq<Seq<char>> {
    seq![
        "dataChangeRecord"@,
        "heartbeatRecord"@,
        "partitionStartRecord"@,
        "partitionEndRecord"@,
        "partitionEventRecord"@,
    ]
}

/// `value` as `wrap` makes a record of it.
pub open spec fn wrapped<T>(
    value: Result<T, Seq<char>>,
    wrap: spec_fn(T) -> RecordView,
) -> Result<Option<RecordView>, Seq<char>> {
    match value {
        Ok(value) => Ok(Some(wrap(value))),
        Err(message) => Err(message),
    }
}

/// The change stream record that `json` describes: an object with at most one of the five kinds
/// of record set.
pub open spec fn stream_record(json: Json) -> Result<Option<RecordView>, Seq<char>> {
    match object_members("struct ChangeStreamRecord"@, json) {
        Err(message) => Err(message),
        Ok(members) => {
            let data_change = member(members, "dataChangeRecord"@);
            let heartbeat = member(members, "heartbeatRecord"@);
            let partition_start = member(members, "partitionStartRecord"@);
            let partition_end = member(members, "partitionEndRecord"@);
            let partition_event = member(members, "partitionEventRecord"@);
            if count_set(members, record_names()) > 1 {
                Err("more than one kind of record is set"@)
            } else if !(data_change is Null) {
                wrapped(data_change_record(data_change), |r| RecordView::DataChange(r))
            } else if !(heartbeat is Null) {
                wrapped(heartbeat_record(heartbeat), |r| RecordView::Heartbeat(r))
            } else if !(partition_start is Null) {
                wrapped(partition_start_record(partition_start), |r| RecordView::PartitionStart(r))
            } else if !(partition_end is Null) {
                wrapped(partition_end_record(partition_end), |r| RecordView::PartitionEnd(r))
            } else if !(partition_event is Null) {
                wrapped(partition_event_record(partition_event), |r| RecordView::PartitionEvent(r))
            } else {
                Ok(None)
            }
        },
    }
}

/// Decodes one change stream record.
pub fn decode_record(json: &JsonValue) -> (decoded: Result<ChangeStreamRecord, InternalError>)
    ensures
        same_outcome(decoded, stream_record(json.deep_view())),
{
    let members = read_members("struct ChangeStreamRecord", json)?;
    let data_change = find_set(members, "dataChangeRecord");
    let heartbeat = find_set(members, "heartbeatRecord");
    let partition_start = find_set(members, "partitionStartRecord");
    let partition_end = find_set(members, "partitionEndRecord");
    let partition_event = find_set(members, "partitionEventRecord");
    proof {
        lemma_count_set_of_record_names(members.deep_view());
    }
    let record = match (data_change, heartbeat, partition_start, partition_end, partition_event) {
        (Some(json), None, None, None, None) => Some(
            Record::DataChange(decode_data_change_record(json)?),
        ),
        (None, Some(json), None, None, None) => Some(
            Record::Heartbeat(decode_heartbeat_record(json)?),
        ),
        (None, None, Some(json), None, None) => Some(
            Record::PartitionStart(decode_partition_start_record(json)?),
        ),
        (None, None, None, Some(json), None) => Some(
            Record::PartitionEnd(decode_partition_end_record(json)?),
        ),
        (None, None, None, None, Some(json)) => Some(
            Record::PartitionEvent(decode_partition_event_record(json)?),
        ),
        (None, None, None, None, None) => None,
        _ => {
            return Err(
                InternalError { message: "more than one kind of record is set".to_owned() },
            );
        },
    };
    Ok(ChangeStreamRecord { record })
}

/// One if `members` holds a value other than `null` under `name`, else zero.
pub(crate) open spec fn set_once(members: Members, name: Seq<char>) -> int {
    if member(members, name) is Null {
        0
    } else {
        1
    }
}

/// What [`count_set`] counts, name by name.
pub(crate) proof fn lemma_count_set_of_record_names(members: Members)
    ensures
        count_set(members, record_names()) == set_once(members, "dataChangeRecord"@) + set_once(
            members,
            "heartbeatRecord"@,
        ) + set_once(members, "partitionStartRecord"@) + set_once(members, "partitionEndRecord"@)
            + set_once(members, "partitionEventRecord"@),
{
    let names = record_names();
    reveal_with_fuel(count_set, 6);
    assert(names.drop_last().last() == "partitionEndRecord"@);
    assert(names.drop_last().drop_last().last() == "partitionStartRecord"@);
    assert(names.drop_last().drop_last().drop_last().last() == "heartbeatRecord"@);
    assert(names.drop_last().drop_last().drop_last().drop_last().last() == "dataChangeRecord"@);
}

/// A decoded record is of the one kind whose member is set, and of no kind where none is set; an
/// object with two kinds set is refused.
pub proof fn law_a_record_is_of_one_kind(members: Members)
    ensures
        count_set(members, record_names()) > 1 ==> stream_record(Json::Object(members)) is Err,
        stream_record(Json::Object(members)) matches Ok(record) ==> {
            &&& (record is None) <==> count_set(members, record_names()) == 0
            &&& (record is Some && record->0 is DataChange) <==> !(member(
                members,
                "dataChangeRecord"@,
            ) is Null)
            &&& (record is Some && record->0 is Heartbeat) <==> !(member(
                members,
                "heartbeatRecord"@,
            ) is Null)
            &&& (record is Some && record->0 is PartitionStart) <==> !(member(
                members,
                "partitionStartRecord"@,
            ) is Null)
            &&& (record is Some && record->0 is PartitionEnd) <==> !(member(
                members,
                "partitionEndRecord"@,
            ) is Null)
            &&& (record is Some && record->0 is PartitionEvent) <==> !(member(
                members,
                "partitionEventRecord"@,
            ) is Null)
        },
{
    lemma_count_set_of_record_names(members);
}

/// Members of unknown names are ignored: an object with one more of them decodes to the same
/// record, or fails in the same way.
pub proof fn law_unknown_members_are_ignored(
    members: Members,
    i: int,
    unknown: (Seq<char>, Json),
)
    requires
        0 <= i <= members.len(),
        !record_names().contains(unknown.0),
    ensures
        stream_record(Json::Object(members.insert(i, unknown))) == stream_record(
            Json::Object(members),
        ),
{
    let names = record_names();
    let more = members.insert(i, unknown);
    assert forall|k: int| 0 <= k < names.len() implies member(more, #[trigger] names[k]) == member(
        members,
        names[k],
    ) by {
        law_other_members_do_not_matter(members, i, unknown, names[k]);
    }
    assert(names[0] == "dataChangeRecord"@);
    assert(names[1] == "heartbeatRecord"@);
    assert(names[2] == "partitionStartRecord"@);
    assert(names[3] == "partitionEndRecord"@);
    assert(names[4] == "partitionEventRecord"@);
    lemma_count_set_of_record_names(members);
    lemma_count_set_of_record_names(more);
}

} // verus!
