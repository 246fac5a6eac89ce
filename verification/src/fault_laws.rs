//! What is wrong with a JSON value that describes no change stream record.
//!
//! The laws here fix the message of every refusal: which member it is about, how it describes the
//! value that was found, and what it says was expected.

use crate::decode::{
    column_metadata, data_change_record, heartbeat_record, lemma_count_set_of_record_names,
    partition_end_record, partition_event_record, partition_start_record, row_mod, stream_record,
};
use crate::fields::{
    bool_field, decoded_all, description, description_with, i32_field, i64_field,
    law_lists_decode_piecewise, list_field, member, object_field, object_item, rfc3339_instant,
    string_field, string_item, timestamp_field, timestamp_item, Members,
};
use crate::json::Json;
use crate::parse::column_records;
use crate::record_laws::{law_lookup_finds_the_first_member, under};
use crate::text::debug_text;
use vstd::prelude::*;

verus! {

/// How messages speak of `json`.
pub open spec fn words(json: Json) -> Seq<char> {
    match json {
        Json::Null => "null"@,
        Json::Bool(b) => if b {
            "boolean `true`"@
        } else {
            "boolean `false`"@
        },
        Json::Number { text, is_float, .. } => if is_float {
            "floating point `"@ + text + "`"@
        } else {
            "integer `"@ + text + "`"@
        },
        Json::Str(text) => "string "@ + debug_text(text),
        Json::Array(_) => "sequence"@,
        Json::Object(_) => "map"@,
    }
}

/// The message for a value of the wrong type.
pub open spec fn wrong_type(json: Json, expected: Seq<char>) -> Seq<char> {
    "invalid type: "@ + words(json) + ", expected "@ + expected
}

/// The message for a value of the right type that is out of place.
pub open spec fn wrong_value(json: Json, expected: Seq<char>) -> Seq<char> {
    "invalid value: "@ + words(json) + ", expected "@ + expected
}

/// What a result complains of.
pub open spec fn fault_of<T>(result: Result<T, Seq<char>>) -> Option<Seq<char>> {
    match result {
        Ok(_) => None,
        Err(message) => Some(message),
    }
}

/// The first of two faults, if there is any.
pub open spec fn either(first: Option<Seq<char>>, second: Option<Seq<char>>) -> Option<Seq<char>> {
    if first is Some {
        first
    } else {
        second
    }
}

/// The fault of the first item that has one.
pub open spec fn first_fault(
    items: Seq<Json>,
    fault: spec_fn(Json) -> Option<Seq<char>>,
) -> Option<Seq<char>>
    decreases items.len(),
{
    if items.len() == 0 {
        None
    } else {
        either(fault(items[0]), first_fault(items.drop_first(), fault))
    }
}

/// What is wrong with `json` as a string.
pub open spec fn text_fault(json: Json) -> Option<Seq<char>> {
    if json is Null || json is Str {
        None
    } else {
        Some(wrong_type(json, "a string"@))
    }
}

/// What is wrong with `json` as an item of a list of strings.
pub open spec fn text_item_fault(json: Json) -> Option<Seq<char>> {
    if json is Str {
        None
    } else {
        Some(wrong_type(json, "a string"@))
    }
}

/// What is wrong with `json` as a Boolean.
pub open spec fn flag_fault(json: Json) -> Option<Seq<char>> {
    if json is Null || json is Bool {
        None
    } else {
        Some(wrong_type(json, "a boolean"@))
    }
}

/// What is wrong with `json` as an integer from `low` to `high`, a range called `range`.
pub open spec fn integer_fault(json: Json, low: int, high: int, range: Seq<char>) -> Option<
    Seq<char>,
> {
    if json is Null {
        None
    } else if json is Number && json->integer is Some && low <= json->integer->0 <= high {
        None
    } else if json is Number && !json->is_float {
        Some(wrong_value(json, range))
    } else {
        Some(wrong_type(json, range))
    }
}

/// What is wrong with `json` as a point in time.
pub open spec fn time_fault(json: Json) -> Option<Seq<char>> {
    if json is Null {
        None
    } else if !(json is Str) {
        Some(wrong_type(json, "a timestamp"@))
    } else if rfc3339_instant(json->Str_0) is None {
        Some(wrong_value(json, "a timestamp"@))
    } else {
        None
    }
}

/// What is wrong with `json` as an object of the kind `expected`.
pub open spec fn object_fault(json: Json, expected: Seq<char>) -> Option<Seq<char>> {
    if json is Object {
        None
    } else {
        Some(wrong_type(json, expected))
    }
}

/// What is wrong with `json` as a field that holds an object of the kind `expected`.
pub open spec fn object_field_fault(json: Json, expected: Seq<char>) -> Option<Seq<char>> {
    if json is Null {
        None
    } else {
        object_fault(json, expected)
    }
}

/// What is wrong with `json` as a list whose items have the faults that `fault` says.
pub open spec fn list_fault(json: Json, fault: spec_fn(Json) -> Option<Seq<char>>) -> Option<
    Seq<char>,
> {
    if json is Null {
        None
    } else if json is Array {
        first_fault(json->Array_0, fault)
    } else {
        Some(wrong_type(json, "a sequence"@))
    }
}

/// What is wrong with `json` as a list of objects of the kind `expected`.
pub open spec fn objects_fault(json: Json, expected: Seq<char>) -> Option<Seq<char>> {
    list_fault(json, |item: Json| object_fault(item, expected))
}

/// What is wrong with `json` as the description of a column.
pub open spec fn column_fault(json: Json) -> Option<Seq<char>> {
    let m = json->Object_0;
    either(
        object_fault(json, "struct ColumnMetadata"@),
        either(
            flag_fault(under(m, "isPrimaryKey"@)),
            either(
                text_fault(under(m, "name"@)),
                either(
                    integer_fault(
                        under(m, "ordinalPosition"@),
                        i64::MIN as int,
                        i64::MAX as int,
                        "i64"@,
                    ),
                    object_field_fault(under(m, "type"@), "struct Type"@),
                ),
            ),
        ),
    )
}

/// What is wrong with `json` as the description of a row change.
pub open spec fn row_mod_fault(json: Json) -> Option<Seq<char>> {
    let m = json->Object_0;
    either(
        object_fault(json, "struct Mod"@),
        either(
            objects_fault(under(m, "keys"@), "struct ModValue"@),
            either(
                objects_fault(under(m, "newValues"@), "struct ModValue"@),
                objects_fault(under(m, "oldValues"@), "struct ModValue"@),
            ),
        ),
    )
}

/// What is wrong with `json` as the description of a data change record.
pub open spec fn data_change_fault(json: Json) -> Option<Seq<char>> {
    let m = json->Object_0;
    let count = |name: Seq<char>|
        integer_fault(under(m, name), i32::MIN as int, i32::MAX as int, "i32"@);
    either(
        object_fault(json, "struct DataChangeRecord"@),
        either(
            list_fault(under(m, "columnMetadata"@), |item: Json| column_fault(item)),
            either(
                time_fault(under(m, "commitTimestamp"@)),
                either(
                    flag_fault(under(m, "isLastRecordInTransactionInPartition"@)),
                    either(
                        flag_fault(under(m, "isSystemTransaction"@)),
                        either(
                            text_fault(under(m, "modType"@)),
                            either(
                                list_fault(under(m, "mods"@), |item: Json| row_mod_fault(item)),
                                either(
                                    count("numberOfPartitionsInTransaction"@),
                                    either(
                                        count("numberOfRecordsInTransaction"@),
                                        either(
                                            text_fault(under(m, "recordSequence"@)),
                                            either(
                                                text_fault(under(m, "serverTransactionId"@)),
                                                either(
                                                    text_fault(under(m, "table"@)),
                                                    either(
                                                        text_fault(under(m, "transactionTag"@)),
                                                        text_fault(under(m, "valueCaptureType"@)),
                                                    ),
                                                ),
                                            ),
                                        ),
                                    ),
                                ),
                            ),
                        ),
                    ),
                ),
            ),
        ),
    )
}

/// What is wrong with `json` as the description of a heartbeat record.
pub open spec fn heartbeat_fault(json: Json) -> Option<Seq<char>> {
    either(
        object_fault(json, "struct HeartbeatRecord"@),
        time_fault(under(json->Object_0, "timestamp"@)),
    )
}

/// What is wrong with `json` as the description of a partition start record.
pub open spec fn partition_start_fault(json: Json) -> Option<Seq<char>> {
    let m = json->Object_0;
    either(
        object_fault(json, "struct PartitionStartRecord"@),
        either(
            list_fault(under(m, "partitionTokens"@), |item: Json| text_item_fault(item)),
            either(
                text_fault(under(m, "recordSequence"@)),
                time_fault(under(m, "startTimestamp"@)),
            ),
        ),
    )
}

/// What is wrong with `json` as the description of a partition end record.
pub open spec fn partition_end_fault(json: Json) -> Option<Seq<char>> {
    let m = json->Object_0;
    either(
        object_fault(json, "struct PartitionEndRecord"@),
        either(
            time_fault(under(m, "endTimestamp"@)),
            either(
                text_fault(under(m, "partitionToken"@)),
                text_fault(under(m, "recordSequence"@)),
            ),
        ),
    )
}

/// What is wrong with `json` as the description of a partition event record.
pub open spec fn partition_event_fault(json: Json) -> Option<Seq<char>> {
    let m = json->Object_0;
    either(
        object_fault(json, "struct PartitionEventRecord"@),
        either(
            time_fault(under(m, "commitTimestamp"@)),
            either(
                objects_fault(under(m, "moveInEvents"@), "struct MoveInEvent"@),
                either(
                    objects_fault(under(m, "moveOutEvents"@), "struct MoveOutEvent"@),
                    either(
                        text_fault(under(m, "partitionToken"@)),
                        text_fault(under(m, "recordSequence"@)),
                    ),
                ),
            ),
        ),
    )
}

/// Whether two or more of the five kinds of record are set.
pub open spec fn has_two_kinds(m: Members) -> bool {
    let data_change = under(m, "dataChangeRecord"@) != Json::Null;
    let heartbeat = under(m, "heartbeatRecord"@) != Json::Null;
    let start = under(m, "partitionStartRecord"@) != Json::Null;
    let end = under(m, "partitionEndRecord"@) != Json::Null;
    let event = under(m, "partitionEventRecord"@) != Json::Null;
    ||| data_change && (heartbeat || start || end || event)
    ||| heartbeat && (start || end || event)
    ||| start && (end || event)
    ||| end && event
}

/// What is wrong with `json` as a change stream record.
pub open spec fn record_fault(json: Json) -> Option<Seq<char>> {
    let m = json->Object_0;
    if !(json is Object) {
        Some(wrong_type(json, "struct ChangeStreamRecord"@))
    } else if has_two_kinds(m) {
        Some("more than one kind of record is set"@)
    } else if under(m, "dataChangeRecord"@) != Json::Null {
        data_change_fault(under(m, "dataChangeRecord"@))
    } else if under(m, "heartbeatRecord"@) != Json::Null {
        heartbeat_fault(under(m, "heartbeatRecord"@))
    } else if under(m, "partitionStartRecord"@) != Json::Null {
        partition_start_fault(under(m, "partitionStartRecord"@))
    } else if under(m, "partitionEndRecord"@) != Json::Null {
        partition_end_fault(under(m, "partitionEndRecord"@))
    } else if under(m, "partitionEventRecord"@) != Json::Null {
        partition_event_fault(under(m, "partitionEventRecord"@))
    } else {
        None
    }
}

/// Messages describe a value by its type, a scalar by its text too.
pub proof fn law_messages_describe_the_value(json: Json, formatted: Seq<char>)
    ensures
        description(json) == words(json),
        json is Str ==> description_with(json, formatted) == "string "@ + formatted,
        !(json is Str) ==> description_with(json, formatted) == words(json),
{
}

/// What is wrong with the simple fields of an object.
proof fn lemma_fields(members: Members, name: Seq<char>)
    ensures
        fault_of(string_field(members, name)) == text_fault(under(members, name)),
        fault_of(bool_field(members, name)) == flag_fault(under(members, name)),
        fault_of(i64_field(members, name)) == integer_fault(
            under(members, name),
            i64::MIN as int,
            i64::MAX as int,
            "i64"@,
        ),
        fault_of(i32_field(members, name)) == integer_fault(
            under(members, name),
            i32::MIN as int,
            i32::MAX as int,
            "i32"@,
        ),
        fault_of(timestamp_field(members, name)) == time_fault(under(members, name)),
        forall|expected: Seq<char>|
            fault_of(#[trigger] object_field(members, name, expected)) == object_field_fault(
                under(members, name),
                expected,
            ),
{
    law_lookup_finds_the_first_member(members, name);
}

/// What is wrong with a list is what is wrong with its first faulty item.
proof fn lemma_items<T>(
    items: Seq<Json>,
    decoded: spec_fn(Json) -> Result<T, Seq<char>>,
    fault: spec_fn(Json) -> Option<Seq<char>>,
)
    requires
        forall|json: Json| #[trigger] fault(json) == fault_of(decoded(json)),
    ensures
        fault_of(decoded_all(items, decoded)) == first_fault(items, fault),
    decreases items.len(),
{
    if items.len() > 0 {
        let head = seq![items[0]];
        let tail = items.drop_first();
        assert(items =~= head + tail);
        law_lists_decode_piecewise(head, tail, decoded);
        assert(head.drop_last() =~= Seq::empty());
        assert(head.last() == items[0]);
        reveal_with_fuel(decoded_all, 2);
        assert(fault(items[0]) == fault_of(decoded(items[0])));
        lemma_items(tail, decoded, fault);
    }
}

/// What is wrong with a list field.
proof fn lemma_list<T>(
    members: Members,
    name: Seq<char>,
    decoded: spec_fn(Json) -> Result<T, Seq<char>>,
    fault: spec_fn(Json) -> Option<Seq<char>>,
)
    requires
        forall|json: Json| #[trigger] fault(json) == fault_of(decoded(json)),
    ensures
        fault_of(list_field(members, name, decoded)) == list_fault(under(members, name), fault),
{
    law_lookup_finds_the_first_member(members, name);
    let json = member(members, name);
    if json is Array {
        lemma_items(json->Array_0, decoded, fault);
    }
}

/// What is wrong with a list of objects.
proof fn lemma_objects(members: Members, name: Seq<char>, expected: Seq<char>)
    ensures
        fault_of(list_field(members, name, |json: Json| object_item(expected, json)))
            == objects_fault(under(members, name), expected),
{
    lemma_list(
        members,
        name,
        |json: Json| object_item(expected, json),
        |item: Json| object_fault(item, expected),
    );
}

/// The description of a column is refused exactly for its first fault in the order of names.
pub proof fn law_columns_are_refused_for_their_first_fault(json: Json)
    ensures
        fault_of(column_metadata(json)) == column_fault(json),
{
    if json is Object {
        let m = json->Object_0;
        lemma_fields(m, "isPrimaryKey"@);
        lemma_fields(m, "name"@);
        lemma_fields(m, "ordinalPosition"@);
        lemma_fields(m, "type"@);
    }
}

/// The description of a row change is refused exactly for its first fault in the order of names.
pub proof fn law_row_changes_are_refused_for_their_first_fault(json: Json)
    ensures
        fault_of(row_mod(json)) == row_mod_fault(json),
{
    if json is Object {
        let m = json->Object_0;
        lemma_objects(m, "keys"@, "struct ModValue"@);
        lemma_objects(m, "newValues"@, "struct ModValue"@);
        lemma_objects(m, "oldValues"@, "struct ModValue"@);
    }
}

/// The description of a data change record is refused exactly for its first fault in the order of
/// names.
pub proof fn law_data_changes_are_refused_for_their_first_fault(json: Json)
    ensures
        fault_of(data_change_record(json)) == data_change_fault(json),
{
    if json is Object {
        let m = json->Object_0;
        assert forall|item: Json| #[trigger] column_fault(item) == fault_of(
            column_metadata(item),
        ) by {
            law_columns_are_refused_for_their_first_fault(item);
        }
        lemma_list(
            m,
            "columnMetadata"@,
            |json: Json| column_metadata(json),
            |item: Json| column_fault(item),
        );
        assert forall|item: Json| #[trigger] row_mod_fault(item) == fault_of(row_mod(item)) by {
            law_row_changes_are_refused_for_their_first_fault(item);
        }
        lemma_list(m, "mods"@, |json: Json| row_mod(json), |item: Json| row_mod_fault(item));
        lemma_fields(m, "commitTimestamp"@);
        lemma_fields(m, "isLastRecordInTransactionInPartition"@);
        lemma_fields(m, "isSystemTransaction"@);
        lemma_fields(m, "modType"@);
        lemma_fields(m, "numberOfPartitionsInTransaction"@);
        lemma_fields(m, "numberOfRecordsInTransaction"@);
        lemma_fields(m, "recordSequence"@);
        lemma_fields(m, "serverTransactionId"@);
        lemma_fields(m, "table"@);
        lemma_fields(m, "transactionTag"@);
        lemma_fields(m, "valueCaptureType"@);
    }
}

/// The descriptions of the other kinds of record are refused exactly for their first fault in the
/// order of names.
pub proof fn law_other_records_are_refused_for_their_first_fault(json: Json)
    ensures
        fault_of(heartbeat_record(json)) == heartbeat_fault(json),
        fault_of(partition_start_record(json)) == partition_start_fault(json),
        fault_of(partition_end_record(json)) == partition_end_fault(json),
        fault_of(partition_event_record(json)) == partition_event_fault(json),
{
    if json is Object {
        let m = json->Object_0;
        lemma_fields(m, "timestamp"@);
        lemma_fields(m, "startTimestamp"@);
        lemma_fields(m, "endTimestamp"@);
        lemma_fields(m, "commitTimestamp"@);
        lemma_fields(m, "recordSequence"@);
        lemma_fields(m, "partitionToken"@);
        lemma_list(
            m,
            "partitionTokens"@,
            |json: Json| string_item(json),
            |item: Json| text_item_fault(item),
        );
        lemma_objects(m, "moveInEvents"@, "struct MoveInEvent"@);
        lemma_objects(m, "moveOutEvents"@, "struct MoveOutEvent"@);
    }
}

/// A change stream record is refused exactly for its first fault: that it is no object, that it is
/// of two kinds, or what is wrong with the one kind that is set.
pub proof fn law_records_are_refused_for_their_first_fault(json: Json)
    ensures
        fault_of(stream_record(json)) == record_fault(json),
{
    if json is Object {
        let m = json->Object_0;
        law_lookup_finds_the_first_member(m, "dataChangeRecord"@);
        law_lookup_finds_the_first_member(m, "heartbeatRecord"@);
        law_lookup_finds_the_first_member(m, "partitionStartRecord"@);
        law_lookup_finds_the_first_member(m, "partitionEndRecord"@);
        law_lookup_finds_the_first_member(m, "partitionEventRecord"@);
        lemma_count_set_of_record_names(m);
        law_data_changes_are_refused_for_their_first_fault(under(m, "dataChangeRecord"@));
        law_other_records_are_refused_for_their_first_fault(under(m, "heartbeatRecord"@));
        law_other_records_are_refused_for_their_first_fault(under(m, "partitionStartRecord"@));
        law_other_records_are_refused_for_their_first_fault(under(m, "partitionEndRecord"@));
        law_other_records_are_refused_for_their_first_fault(under(m, "partitionEventRecord"@));
    }
}

/// What is wrong with `json` as a `ChangeRecord` column.
pub open spec fn column_value_fault(json: Json) -> Option<Seq<char>> {
    match json {
        Json::Null => None,
        Json::Array(items) => match first_fault(items, |item: Json| record_fault(item)) {
            None => None,
            Some(message) => Some("failed to deserialize ChangeStreamRecord: "@ + message),
        },
        Json::Bool(_) => Some("expected array for ChangeRecord column, got: "@ + "bool"@),
        Json::Number { .. } => Some("expected array for ChangeRecord column, got: "@ + "number"@),
        Json::Str(_) => Some("expected array for ChangeRecord column, got: "@ + "string"@),
        Json::Object(_) => Some("expected array for ChangeRecord column, got: "@ + "object"@),
    }
}

/// A column is refused exactly where it is neither `null` nor an array, by the name of its type, and
/// where one of its elements is refused, for the first of these.
pub proof fn law_columns_of_records_are_refused_for_their_first_fault(json: Json)
    ensures
        fault_of(column_records(json)) == column_value_fault(json),
{
    if json is Array {
        assert forall|item: Json| #[trigger] record_fault(item) == fault_of(
            stream_record(item),
        ) by {
            law_records_are_refused_for_their_first_fault(item);
        }
        lemma_items(
            json->Array_0,
            |item: Json| stream_record(item),
            |item: Json| record_fault(item),
        );
    }
}

/// A timestamp is refused exactly where the JSON value is neither `null` nor a string, for its type,
/// and where it is a string whose text denotes no point in time, for its value.
pub proof fn law_timestamps_are_refused_for_their_fault(json: Json, instant: Option<(i64, u32)>)
    ensures
        fault_of(timestamp_item(json, instant)) == if json is Null {
            None
        } else if !(json is Str) {
            Some(wrong_type(json, "a timestamp"@))
        } else if instant is None {
            Some(wrong_value(json, "a timestamp"@))
        } else {
            None
        },
{
}

} // verus!
