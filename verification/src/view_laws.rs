//! What the mathematical values of the library's types hold.
//!
//! Contracts speak of values by their views. The laws here say that a view leaves nothing out and
//! confuses nothing: each part of a value is the part of the same name of its view.

use crate::error::{same_outcome, InternalError};
use crate::json::{json_of, kind_name, Json, JsonLayer, JsonNumber, JsonValue};
use crate::query::{ParamValue, ParamView, Statement};
use crate::record::{
    ChangeStreamRecord, ColumnMetadata, DataChangeRecord, HeartbeatRecord, Mod, PartitionEndRecord,
    PartitionEventRecord, PartitionStartRecord, Record, RecordView, Timestamp,
};
use vstd::prelude::*;

verus! {

/// The view of a JSON value is of the same type and holds the same scalar.
pub proof fn law_views_keep_scalars(b: bool, number: JsonNumber, text: String)
    ensures
        JsonValue::Null.deep_view() == Json::Null,
        JsonValue::Bool(b).deep_view() == Json::Bool(b),
        JsonValue::Number(number).deep_view() == (Json::Number {
            text: number.text@,
            is_float: number.is_float,
            integer: number.integer,
        }),
        JsonValue::String(text).deep_view() == Json::Str(text@),
{
}

/// The view of a JSON array holds the views of its items, as many and in the same order.
pub proof fn law_views_keep_items(items: Vec<JsonValue>)
    ensures
        JsonValue::Array(items).deep_view() is Array,
        JsonValue::Array(items).deep_view()->Array_0.len() == items@.len(),
        forall|i: int|
            0 <= i < items@.len() ==> JsonValue::Array(items).deep_view()->Array_0[i] == (
            #[trigger] items@[i]).deep_view(),
{
}

/// The view of a JSON object holds the names and the views of its members, as many and in the same
/// order.
pub proof fn law_views_keep_members(members: Vec<(String, JsonValue)>)
    ensures
        JsonValue::Object(members).deep_view() is Object,
        JsonValue::Object(members).deep_view()->Object_0.len() == members@.len(),
        forall|i: int|
            #![trigger members@[i]]
            0 <= i < members@.len() ==> {
                let member = JsonValue::Object(members).deep_view()->Object_0[i];
                member.0 == members@[i].0@ && member.1 == members@[i].1.deep_view()
            },
{
}

/// A layer of a JSON value is of the same type as the value and holds the same scalar, or the same
/// items or members, as many and in the same order.
pub proof fn law_layers_keep_everything<'a>(layer: JsonLayer<'a>)
    ensures
        match layer {
            JsonLayer::Null => layer.json() == Json::Null,
            JsonLayer::Bool(b) => layer.json() == Json::Bool(b),
            JsonLayer::Number(number) => layer.json() == (Json::Number {
                text: number.text@,
                is_float: number.is_float,
                integer: number.integer,
            }),
            JsonLayer::String(text) => layer.json() == Json::Str(text@),
            JsonLayer::Array(items) => {
                &&& layer.json() is Array
                &&& layer.json()->Array_0.len() == items@.len()
                &&& forall|i: int|
                    0 <= i < items@.len() ==> layer.json()->Array_0[i] == json_of(
                        #[trigger] items@[i],
                    )
            },
            JsonLayer::Object(members) => {
                &&& layer.json() is Object
                &&& layer.json()->Object_0.len() == members@.len()
                &&& forall|i: int|
                    #![trigger members@[i]]
                    0 <= i < members@.len() ==> {
                        &&& layer.json()->Object_0[i].0 == members@[i].0@
                        &&& layer.json()->Object_0[i].1 == json_of(*members@[i].1)
                    }
            },
        },
{
}

/// The names of the types of JSON values.
pub proof fn law_types_have_their_json_names(json: Json)
    ensures
        json is Null ==> kind_name(json) == "null"@,
        json is Bool ==> kind_name(json) == "bool"@,
        json is Number ==> kind_name(json) == "number"@,
        json is Str ==> kind_name(json) == "string"@,
        json is Array ==> kind_name(json) == "array"@,
        json is Object ==> kind_name(json) == "object"@,
{
}

/// The view of a list holds the views of its items, as many and in the same order.
pub proof fn law_views_keep_lists<T: DeepView>(items: Vec<T>)
    ensures
        items.deep_view().len() == items@.len(),
        forall|i: int|
            0 <= i < items@.len() ==> #[trigger] items.deep_view()[i] == items@[i].deep_view(),
{
}

/// The view of a column holds each of its fields.
pub proof fn law_views_keep_columns(c: ColumnMetadata)
    ensures
        c.deep_view().name == c.name@,
        c.column_type is None <==> c.deep_view().column_type is None,
        c.column_type is Some ==> c.deep_view().column_type->0 == c.column_type->0.deep_view(),
        c.deep_view().is_primary_key == c.is_primary_key,
        c.deep_view().ordinal_position == c.ordinal_position,
{
}

/// The view of a row change holds each of its fields.
pub proof fn law_views_keep_row_changes(row: Mod)
    ensures
        row.deep_view().keys == row.keys.deep_view(),
        row.deep_view().old_values == row.old_values.deep_view(),
        row.deep_view().new_values == row.new_values.deep_view(),
{
}

/// The view of a data change record holds each of its fields.
pub proof fn law_views_keep_data_changes(r: DataChangeRecord)
    ensures
        r.deep_view().commit_timestamp == r.commit_timestamp,
        r.deep_view().record_sequence == r.record_sequence@,
        r.deep_view().server_transaction_id == r.server_transaction_id@,
        r.deep_view().is_last_record_in_transaction_in_partition
            == r.is_last_record_in_transaction_in_partition,
        r.deep_view().table == r.table@,
        r.deep_view().column_metadata == r.column_metadata.deep_view(),
        r.deep_view().mods == r.mods.deep_view(),
        r.deep_view().mod_type == r.mod_type@,
        r.deep_view().value_capture_type == r.value_capture_type@,
        r.deep_view().number_of_records_in_transaction == r.number_of_records_in_transaction,
        r.deep_view().number_of_partitions_in_transaction == r.number_of_partitions_in_transaction,
        r.deep_view().transaction_tag == r.transaction_tag@,
        r.deep_view().is_system_transaction == r.is_system_transaction,
{
}

/// The views of the records about heartbeats and partitions hold each of their fields.
pub proof fn law_views_keep_partition_records(
    heartbeat: HeartbeatRecord,
    start: PartitionStartRecord,
    end: PartitionEndRecord,
    event: PartitionEventRecord,
)
    ensures
        heartbeat.deep_view().timestamp == heartbeat.timestamp,
        start.deep_view().start_timestamp == start.start_timestamp,
        start.deep_view().record_sequence == start.record_sequence@,
        start.deep_view().partition_tokens.len() == start.partition_tokens@.len(),
        forall|i: int|
            0 <= i < start.partition_tokens@.len() ==> #[trigger] start.deep_view(
            ).partition_tokens[i] == start.partition_tokens@[i]@,
        end.deep_view().end_timestamp == end.end_timestamp,
        end.deep_view().record_sequence == end.record_sequence@,
        end.deep_view().partition_token == end.partition_token@,
        event.deep_view().commit_timestamp == event.commit_timestamp,
        event.deep_view().record_sequence == event.record_sequence@,
        event.deep_view().partition_token == event.partition_token@,
        event.deep_view().move_in_events == event.move_in_events.deep_view(),
        event.deep_view().move_out_events == event.move_out_events.deep_view(),
{
}

/// The view of a record is of the same kind as the record.
pub proof fn law_views_keep_kinds(record: ChangeStreamRecord)
    ensures
        record.deep_view() == match record.record {
            None => None,
            Some(Record::DataChange(r)) => Some(RecordView::DataChange(r.deep_view())),
            Some(Record::Heartbeat(r)) => Some(RecordView::Heartbeat(r)),
            Some(Record::PartitionStart(r)) => Some(RecordView::PartitionStart(r.deep_view())),
            Some(Record::PartitionEnd(r)) => Some(RecordView::PartitionEnd(r.deep_view())),
            Some(Record::PartitionEvent(r)) => Some(RecordView::PartitionEvent(r.deep_view())),
        },
{
}

/// The view of a parameter's value is of the same type and holds the same value; `NULL` is the view
/// of `NULL` alone.
pub proof fn law_views_keep_parameters(value: ParamValue)
    ensures
        match value {
            ParamValue::Timestamp(time) => value.deep_view() == ParamView::Timestamp(time),
            ParamValue::String(None) => value.deep_view() == ParamView::String(None),
            ParamValue::String(Some(text)) => value.deep_view() == ParamView::String(Some(text@)),
            ParamValue::Int64(n) => value.deep_view() == ParamView::Int64(n),
        },
{
}

/// The view of a statement holds its text and its parameters, as many and in the same order, each
/// with its name and its value.
pub proof fn law_views_keep_statements(statement: Statement)
    ensures
        statement.deep_view().sql == statement.sql@,
        statement.deep_view().params.len() == statement.params@.len(),
        forall|i: int|
            #![trigger statement.params@[i]]
            0 <= i < statement.params@.len() ==> {
                &&& statement.deep_view().params[i].0 == statement.params@[i].0@
                &&& statement.deep_view().params[i].1 == statement.params@[i].1.deep_view()
            },
{
}

/// The view of an error is its message.
pub proof fn law_views_keep_messages(error: InternalError)
    ensures
        error.deep_view() == error.message@,
{
}

/// Two outcomes are the same exactly if both are successes with the same value, or both failures
/// with the same message.
pub proof fn law_same_outcomes_agree<T: DeepView>(
    result: Result<T, InternalError>,
    expected: Result<T::V, Seq<char>>,
)
    ensures
        same_outcome(result, expected) <==> {
            ||| result is Ok && expected is Ok && expected->Ok_0 == result->Ok_0.deep_view()
            ||| result is Err && expected is Err && expected->Err_0 == result->Err_0.message@
        },
{
}

/// The view of a timestamp is the timestamp itself.
pub proof fn law_views_keep_timestamps(time: Timestamp)
    ensures
        time.deep_view().seconds == time.seconds,
        time.deep_view().nanos == time.nanos,
{
}

} // verus!
