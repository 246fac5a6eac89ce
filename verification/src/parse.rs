//! Parsing of the `ChangeRecord` column.

use crate::decode::{decode_record, stream_record};
use crate::error::{same_outcome, InternalError};
use crate::fields::{
    decode_all, decoded_all, law_first_failure_decides, law_lists_decode_item_by_item,
    law_lists_decode_piecewise,
};
use crate::json::{json_of, kind_name, value_type_name, Json, JsonValue};
use crate::record::{ChangeStreamRecord, RecordView};
use vstd::prelude::*;

verus! {

/// The message for a record that could not be decoded, given the message of the decoding.
pub open spec fn record_message(message: Seq<char>) -> Seq<char> {
    "failed to deserialize ChangeStreamRecord: "@ + message
}

/// The records that the value of a `ChangeRecord` column holds, in the order of the column's
/// array, or the message of the error.
pub open spec fn column_records(json: Json) -> Result<Seq<Option<RecordView>>, Seq<char>> {
    match json {
        Json::Array(items) => match decoded_all(items, |item: Json| stream_record(item)) {
            Ok(records) => Ok(records),
            Err(message) => Err(record_message(message)),
        },
        Json::Null => Ok(Seq::empty()),
        _ => Err("expected array for ChangeRecord column, got: "@ + kind_name(json)),
    }
}

/// The error for a record that could not be decoded, given the message of the decoding.
pub fn record_error(message: &str) -> (error: InternalError)
    ensures
        error.deep_view() == record_message(message@),
        error.message@ == "failed to deserialize ChangeStreamRecord: "@ + message@,
{
    let mut full = "failed to deserialize ChangeStreamRecord: ".to_owned();
    full.append(message);
    InternalError { message: full }
}

/// Parses the value of a `ChangeRecord` column, an array of records or `null`.
pub fn parse_column(json: &JsonValue) -> (records: Result<Vec<ChangeStreamRecord>, InternalError>)
    ensures
        same_outcome(records, column_records(json.deep_view())),
{
    let items = match json {
        JsonValue::Array(items) => items,
        JsonValue::Null => {
            let records: Vec<ChangeStreamRecord> = Vec::new();
            assert(records.deep_view() =~= Seq::<Option<RecordView>>::empty());
            return Ok(records);
        },
        other => {
            let mut message = "expected array for ChangeRecord column, got: ".to_owned();
            message.append(value_type_name(other));
            return Err(InternalError { message });
        },
    };
    assert(json.model()->Array_0 =~= items.deep_view());
    match decode_all(items, decode_record, Ghost(|item: Json| stream_record(item))) {
        Ok(records) => Ok(records),
        Err(error) => Err(record_error(error.message.as_str())),
    }
}

/// Parses the value of a `ChangeRecord` column as `serde_json` holds it.
pub fn parse_change_stream_records(json_value: &serde_json::Value) -> (records: Result<
    Vec<ChangeStreamRecord>,
    InternalError,
>)
    ensures
        same_outcome(records, column_records(json_of(*json_value))),
{
    parse_column(&JsonValue::from_serde(json_value))
}

/// A column that parses yields one record for each element of its array, in the order of the array,
/// each as it decodes on its own; and a column parses exactly if each of its elements decodes.
pub proof fn law_records_keep_number_and_order(items: Seq<Json>)
    ensures
        column_records(Json::Array(items)) is Ok <==> (forall|i: int|
            0 <= i < items.len() ==> stream_record(#[trigger] items[i]) is Ok),
        column_records(Json::Array(items)) matches Ok(records) ==> {
            &&& records.len() == items.len()
            &&& forall|i: int|
                0 <= i < items.len() ==> stream_record(items[i]) == Ok::<
                    Option<RecordView>,
                    Seq<char>,
                >(#[trigger] records[i])
        },
{
    let decoded = |item: Json| stream_record(item);
    law_lists_decode_item_by_item(items, decoded);
    if forall|i: int| 0 <= i < items.len() ==> stream_record(#[trigger] items[i]) is Ok {
        assert forall|i: int| 0 <= i < items.len() implies decoded(#[trigger] items[i]) is Ok by {}
    }
    if column_records(Json::Array(items)) is Ok {
        assert forall|i: int| 0 <= i < items.len() implies stream_record(
            #[trigger] items[i],
        ) is Ok by {
            assert(decoded(items[i]) is Ok);
        }
        let records = column_records(Json::Array(items))->Ok_0;
        assert forall|i: int| 0 <= i < items.len() implies stream_record(items[i]) == Ok::<
            Option<RecordView>,
            Seq<char>,
        >(#[trigger] records[i]) by {
            assert(decoded(items[i]) == Ok::<Option<RecordView>, Seq<char>>(records[i]));
        }
    }
}

/// The first element that does not decode decides the error of its column; no record of the column
/// is returned.
pub proof fn law_first_bad_record_decides(items: Seq<Json>, i: int)
    requires
        0 <= i < items.len(),
        stream_record(items[i]) is Err,
        forall|k: int| 0 <= k < i ==> stream_record(#[trigger] items[k]) is Ok,
    ensures
        column_records(Json::Array(items)) == Err::<Seq<Option<RecordView>>, Seq<char>>(
            record_message(stream_record(items[i])->Err_0),
        ),
{
    let decoded = |item: Json| stream_record(item);
    assert forall|k: int| 0 <= k < i implies decoded(#[trigger] items[k]) is Ok by {}
    assert(decoded(items[i]) is Err);
    law_first_failure_decides(items, decoded, i);
}

/// A column that is `null` holds what an empty array holds: no records, and no error.
pub proof fn law_null_is_an_empty_column()
    ensures
        column_records(Json::Null) == column_records(Json::Array(Seq::empty())),
        column_records(Json::Null) == Ok::<Seq<Option<RecordView>>, Seq<char>>(Seq::empty()),
{
}

/// Joining two columns that parse joins their records.
pub proof fn law_joined_columns_join_their_records(a: Seq<Json>, b: Seq<Json>)
    requires
        column_records(Json::Array(a)) is Ok,
        column_records(Json::Array(b)) is Ok,
    ensures
        column_records(Json::Array(a + b)) == Ok::<Seq<Option<RecordView>>, Seq<char>>(
            column_records(Json::Array(a))->Ok_0 + column_records(Json::Array(b))->Ok_0,
        ),
{
    law_lists_decode_piecewise(a, b, |item: Json| stream_record(item));
}

} // verus!
