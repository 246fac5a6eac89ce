//! What decoding a change stream record means, field by field.
//!
//! The laws here say of every JSON value which record it stands for, if any, and what is wrong with
//! it otherwise. They speak of the JSON value and of the record alone: of the members of objects,
//! the items of arrays, and the fields of records.

use crate::decode::{
    column_metadata, data_change_record, heartbeat_record, lemma_count_set_of_record_names,
    partition_end_record, partition_event_record, partition_start_record, row_mod, stream_record,
};
use crate::fields::{
    bool_field, decoded_all, i32_field, i64_field, law_lists_decode_item_by_item, list_field,
    member, object_field, object_item, rfc3339_instant, string_field, string_item,
    timestamp_field, timestamp_item, Members,
};
use crate::json::Json;
use crate::parse::{column_records, law_records_keep_number_and_order};
use crate::record::{
    ColumnMetadataView, DataChangeRecordView, HeartbeatRecord, ModView, PartitionEndRecordView,
    PartitionEventRecordView, PartitionStartRecordView, RecordView, Timestamp,
};
use vstd::prelude::*;

verus! {

/// Whether the member at `i` is the first one called `name`.
pub open spec fn is_first(members: Members, name: Seq<char>, i: int) -> bool {
    &&& 0 <= i < members.len()
    &&& members[i].0 == name
    &&& forall|k: int| 0 <= k < i ==> (#[trigger] members[k]).0 != name
}

/// Whether an object holds `json` under `name`: `json` is the value of the first member of that
/// name, or it is `null` and there is no member of that name.
pub open spec fn holds(members: Members, name: Seq<char>, json: Json) -> bool {
    ||| exists|i: int| #[trigger] is_first(members, name, i) && members[i].1 == json
    ||| {
        &&& json == Json::Null
        &&& forall|k: int| 0 <= k < members.len() ==> (#[trigger] members[k]).0 != name
    }
}

/// The one value that an object holds under `name`.
pub open spec fn under(members: Members, name: Seq<char>) -> Json {
    choose|json: Json| holds(members, name, json)
}

/// Looking a member up finds the value of the first member of that name, and `null` if there is
/// none.
pub proof fn law_lookup_finds_the_first_member(members: Members, name: Seq<char>)
    ensures
        holds(members, name, member(members, name)),
        forall|json: Json| holds(members, name, json) ==> json == member(members, name),
        under(members, name) == member(members, name),
    decreases members.len(),
{
    if members.len() > 0 {
        let rest = members.drop_first();
        law_lookup_finds_the_first_member(rest, name);
        if members[0].0 == name {
            assert(is_first(members, name, 0));
            assert forall|json: Json| holds(members, name, json) implies json == members[0].1 by {
                if exists|i: int| #[trigger] is_first(members, name, i) && members[i].1 == json {
                    let i = choose|i: int| #[trigger]
                        is_first(members, name, i) && members[i].1 == json;
                    assert(i == 0);
                }
            }
        } else {
            if exists|i: int| #[trigger]
                is_first(rest, name, i) && rest[i].1 == member(members, name) {
                let i = choose|i: int| #[trigger]
                    is_first(rest, name, i) && rest[i].1 == member(members, name);
                assert(is_first(members, name, i + 1)) by {
                    assert forall|k: int| 0 <= k < i + 1 implies (#[trigger] members[k]).0 != name by {
                        if k > 0 {
                            assert(rest[k - 1] == members[k]);
                        }
                    }
                }
            } else {
                assert forall|k: int| 0 <= k < members.len() implies (#[trigger] members[k]).0
                    != name by {
                    if k > 0 {
                        assert(rest[k - 1] == members[k]);
                    }
                }
            }
            assert forall|json: Json| holds(members, name, json) implies json == member(
                members,
                name,
            ) by {
                if exists|i: int| #[trigger] is_first(members, name, i) && members[i].1 == json {
                    let i = choose|i: int| #[trigger]
                        is_first(members, name, i) && members[i].1 == json;
                    assert(is_first(rest, name, i - 1)) by {
                        assert(rest[i - 1] == members[i]);
                        assert forall|k: int| 0 <= k < i - 1 implies (#[trigger] rest[k]).0
                            != name by {
                            assert(rest[k] == members[k + 1]);
                        }
                    }
                    assert(rest[i - 1] == members[i]);
                    assert(holds(rest, name, json));
                } else {
                    assert forall|k: int| 0 <= k < rest.len() implies (#[trigger] rest[k]).0
                        != name by {
                        assert(rest[k] == members[k + 1]);
                    }
                    assert(holds(rest, name, json));
                }
            }
        }
    }
}

// What a field may hold, and what it then stands for.

/// `json` stands for the string `text`; `null` stands for the empty one.
pub open spec fn is_text(json: Json, text: Seq<char>) -> bool {
    json == Json::Str(text) || (json == Json::Null && text.len() == 0)
}

/// `json` stands for the Boolean `flag`; `null` stands for false.
pub open spec fn is_flag(json: Json, flag: bool) -> bool {
    json == Json::Bool(flag) || (json == Json::Null && !flag)
}

/// `json` stands for the integer `n`; `null` stands for zero.
pub open spec fn is_integer(json: Json, n: int) -> bool {
    ||| json is Number && json->integer is Some && json->integer->0 == n
    ||| json == Json::Null && n == 0
}

/// `json` stands for the point in time `time`; `null` stands for none.
pub open spec fn is_time(json: Json, time: Option<Timestamp>) -> bool {
    match time {
        None => json == Json::Null,
        Some(at) => json is Str && rfc3339_instant(json->Str_0) == Some((at.seconds, at.nanos)),
    }
}

/// `json` is the object `object`; `null` stands for none.
pub open spec fn is_object(json: Json, object: Option<Json>) -> bool {
    match object {
        None => json == Json::Null,
        Some(o) => json is Object && json == o,
    }
}

/// `json` is an array that holds, at each position, an item that `item` relates to the value at that
/// position, and nothing else; `null` stands for no values.
pub open spec fn is_list<T>(
    json: Json,
    values: Seq<T>,
    item: spec_fn(Json, T) -> bool,
) -> bool {
    ||| json == Json::Null && values.len() == 0
    ||| {
        &&& json is Array
        &&& json->Array_0.len() == values.len()
        &&& forall|i: int| 0 <= i < values.len() ==> item(json->Array_0[i], #[trigger] values[i])
    }
}

/// `json` is an array of strings, which are `texts`.
pub open spec fn is_texts(json: Json, texts: Seq<Seq<char>>) -> bool {
    is_list(json, texts, |j: Json, t: Seq<char>| j == Json::Str(t))
}

/// `json` is an array of objects, which are `objects`.
pub open spec fn is_objects(json: Json, objects: Seq<Json>) -> bool {
    is_list(json, objects, |j: Json, o: Json| j is Object && j == o)
}

// What the objects of the format stand for.

/// `json` describes the column `column`.
pub open spec fn is_column(json: Json, column: ColumnMetadataView) -> bool {
    &&& json is Object
    &&& is_text(under(json->Object_0, "name"@), column.name)
    &&& is_object(under(json->Object_0, "type"@), column.column_type)
    &&& is_flag(under(json->Object_0, "isPrimaryKey"@), column.is_primary_key)
    &&& is_integer(under(json->Object_0, "ordinalPosition"@), column.ordinal_position as int)
}

/// `json` describes the row change `row`.
pub open spec fn is_row_mod(json: Json, row: ModView) -> bool {
    &&& json is Object
    &&& is_objects(under(json->Object_0, "keys"@), row.keys)
    &&& is_objects(under(json->Object_0, "oldValues"@), row.old_values)
    &&& is_objects(under(json->Object_0, "newValues"@), row.new_values)
}

/// `json` describes the data change record `r`.
pub open spec fn is_data_change(json: Json, r: DataChangeRecordView) -> bool {
    let m = json->Object_0;
    &&& json is Object
    &&& is_time(under(m, "commitTimestamp"@), r.commit_timestamp)
    &&& is_text(under(m, "recordSequence"@), r.record_sequence)
    &&& is_text(under(m, "serverTransactionId"@), r.server_transaction_id)
    &&& is_flag(
        under(m, "isLastRecordInTransactionInPartition"@),
        r.is_last_record_in_transaction_in_partition,
    )
    &&& is_text(under(m, "table"@), r.table)
    &&& is_list(
        under(m, "columnMetadata"@),
        r.column_metadata,
        |j: Json, c: ColumnMetadataView| is_column(j, c),
    )
    &&& is_list(under(m, "mods"@), r.mods, |j: Json, row: ModView| is_row_mod(j, row))
    &&& is_text(under(m, "modType"@), r.mod_type)
    &&& is_text(under(m, "valueCaptureType"@), r.value_capture_type)
    &&& is_integer(
        under(m, "numberOfRecordsInTransaction"@),
        r.number_of_records_in_transaction as int,
    )
    &&& is_integer(
        under(m, "numberOfPartitionsInTransaction"@),
        r.number_of_partitions_in_transaction as int,
    )
    &&& is_text(under(m, "transactionTag"@), r.transaction_tag)
    &&& is_flag(under(m, "isSystemTransaction"@), r.is_system_transaction)
}

/// `json` describes the heartbeat record `r`.
pub open spec fn is_heartbeat(json: Json, r: HeartbeatRecord) -> bool {
    &&& json is Object
    &&& is_time(under(json->Object_0, "timestamp"@), r.timestamp)
}

/// `json` describes the partition start record `r`.
pub open spec fn is_partition_start(json: Json, r: PartitionStartRecordView) -> bool {
    &&& json is Object
    &&& is_time(under(json->Object_0, "startTimestamp"@), r.start_timestamp)
    &&& is_text(under(json->Object_0, "recordSequence"@), r.record_sequence)
    &&& is_texts(under(json->Object_0, "partitionTokens"@), r.partition_tokens)
}

/// `json` describes the partition end record `r`.
pub open spec fn is_partition_end(json: Json, r: PartitionEndRecordView) -> bool {
    &&& json is Object
    &&& is_time(under(json->Object_0, "endTimestamp"@), r.end_timestamp)
    &&& is_text(under(json->Object_0, "recordSequence"@), r.record_sequence)
    &&& is_text(under(json->Object_0, "partitionToken"@), r.partition_token)
}

/// `json` describes the partition event record `r`.
pub open spec fn is_partition_event(json: Json, r: PartitionEventRecordView) -> bool {
    &&& json is Object
    &&& is_time(under(json->Object_0, "commitTimestamp"@), r.commit_timestamp)
    &&& is_text(under(json->Object_0, "recordSequence"@), r.record_sequence)
    &&& is_text(under(json->Object_0, "partitionToken"@), r.partition_token)
    &&& is_objects(under(json->Object_0, "moveInEvents"@), r.move_in_events)
    &&& is_objects(under(json->Object_0, "moveOutEvents"@), r.move_out_events)
}

/// `json` describes a change stream record that says `record`: the member of that kind describes
/// it, and the members of the other kinds are missing or `null`.
pub open spec fn is_record(json: Json, record: Option<RecordView>) -> bool {
    let m = json->Object_0;
    let data_change = under(m, "dataChangeRecord"@);
    let heartbeat = under(m, "heartbeatRecord"@);
    let start = under(m, "partitionStartRecord"@);
    let end = under(m, "partitionEndRecord"@);
    let event = under(m, "partitionEventRecord"@);
    &&& json is Object
    &&& match record {
        Some(RecordView::DataChange(r)) => is_data_change(data_change, r),
        _ => data_change == Json::Null,
    }
    &&& match record {
        Some(RecordView::Heartbeat(r)) => is_heartbeat(heartbeat, r),
        _ => heartbeat == Json::Null,
    }
    &&& match record {
        Some(RecordView::PartitionStart(r)) => is_partition_start(start, r),
        _ => start == Json::Null,
    }
    &&& match record {
        Some(RecordView::PartitionEnd(r)) => is_partition_end(end, r),
        _ => end == Json::Null,
    }
    &&& match record {
        Some(RecordView::PartitionEvent(r)) => is_partition_event(event, r),
        _ => event == Json::Null,
    }
}

// The fields.

/// A string field holds what its member stands for.
proof fn lemma_text(members: Members, name: Seq<char>)
    ensures
        forall|t: Seq<char>| #[trigger]
            is_text(under(members, name), t) <==> string_field(members, name) == Ok::<
                Seq<char>,
                Seq<char>,
            >(t),
{
    law_lookup_finds_the_first_member(members, name);
    assert forall|t: Seq<char>| #[trigger] is_text(under(members, name), t) implies string_field(
        members,
        name,
    ) == Ok::<Seq<char>, Seq<char>>(t) by {
        if member(members, name) == Json::Null {
            assert(t =~= Seq::empty());
        }
    }
}

/// A Boolean field holds what its member stands for.
proof fn lemma_flag(members: Members, name: Seq<char>)
    ensures
        forall|b: bool| #[trigger]
            is_flag(under(members, name), b) <==> bool_field(members, name) == Ok::<
                bool,
                Seq<char>,
            >(b),
{
    law_lookup_finds_the_first_member(members, name);
}

/// An integer field holds what its member stands for.
proof fn lemma_integer(members: Members, name: Seq<char>)
    ensures
        forall|n: i64| #[trigger]
            is_integer(under(members, name), n as int) <==> i64_field(members, name) == Ok::<
                i64,
                Seq<char>,
            >(n),
        forall|n: i32| #[trigger]
            is_integer(under(members, name), n as int) <==> i32_field(members, name) == Ok::<
                i32,
                Seq<char>,
            >(n),
{
    law_lookup_finds_the_first_member(members, name);
}

/// A timestamp field holds what its member stands for.
proof fn lemma_time(members: Members, name: Seq<char>)
    ensures
        forall|t: Option<Timestamp>| #[trigger]
            is_time(under(members, name), t) <==> timestamp_field(members, name) == Ok::<
                Option<Timestamp>,
                Seq<char>,
            >(t),
{
    law_lookup_finds_the_first_member(members, name);
}

/// An object field holds what its member stands for.
proof fn lemma_object(members: Members, name: Seq<char>, expected: Seq<char>)
    ensures
        forall|o: Option<Json>| #[trigger]
            is_object(under(members, name), o) <==> object_field(members, name, expected) == Ok::<
                Option<Json>,
                Seq<char>,
            >(o),
{
    law_lookup_finds_the_first_member(members, name);
}

/// A list field holds what its member stands for, item by item.
proof fn lemma_list<T>(
    members: Members,
    name: Seq<char>,
    decoded: spec_fn(Json) -> Result<T, Seq<char>>,
    item: spec_fn(Json, T) -> bool,
)
    requires
        forall|json: Json, value: T| #[trigger]
            item(json, value) <==> decoded(json) == Ok::<T, Seq<char>>(value),
    ensures
        forall|values: Seq<T>| #[trigger]
            is_list(under(members, name), values, item) <==> list_field(members, name, decoded)
                == Ok::<Seq<T>, Seq<char>>(values),
{
    law_lookup_finds_the_first_member(members, name);
    let json = member(members, name);
    if json is Array {
        law_lists_decode_item_by_item(json->Array_0, decoded);
    }
    assert forall|values: Seq<T>| #[trigger] is_list(json, values, item) <==> list_field(
        members,
        name,
        decoded,
    ) == Ok::<Seq<T>, Seq<char>>(values) by {
        if json is Array {
            let items = json->Array_0;
            if is_list(json, values, item) {
                assert forall|i: int| 0 <= i < items.len() implies decoded(
                    #[trigger] items[i],
                ) is Ok by {
                    assert(item(items[i], values[i]));
                }
                let found = decoded_all(items, decoded)->Ok_0;
                assert forall|i: int| 0 <= i < items.len() implies found[i] == values[i] by {
                    assert(item(items[i], values[i]));
                    assert(decoded(items[i]) == Ok::<T, Seq<char>>(found[i]));
                }
                assert(found =~= values);
            }
            if decoded_all(items, decoded) == Ok::<Seq<T>, Seq<char>>(values) {
                assert forall|i: int| 0 <= i < values.len() implies item(
                    items[i],
                    #[trigger] values[i],
                ) by {
                    assert(decoded(items[i]) == Ok::<T, Seq<char>>(values[i]));
                }
            }
        } else if json == Json::Null {
            if values.len() == 0 {
                assert(values =~= Seq::empty());
            }
        }
    }
}

/// A list of objects holds the objects of its array.
proof fn lemma_objects(members: Members, name: Seq<char>, expected: Seq<char>)
    ensures
        forall|objects: Seq<Json>| #[trigger]
            is_objects(under(members, name), objects) <==> list_field(
                members,
                name,
                |json: Json| object_item(expected, json),
            ) == Ok::<Seq<Json>, Seq<char>>(objects),
{
    lemma_list(
        members,
        name,
        |json: Json| object_item(expected, json),
        |j: Json, o: Json| j is Object && j == o,
    );
}

/// A list of strings holds the texts of its array.
proof fn lemma_texts(members: Members, name: Seq<char>)
    ensures
        forall|texts: Seq<Seq<char>>| #[trigger]
            is_texts(under(members, name), texts) <==> list_field(
                members,
                name,
                |json: Json| string_item(json),
            ) == Ok::<Seq<Seq<char>>, Seq<char>>(texts),
{
    lemma_list(
        members,
        name,
        |json: Json| string_item(json),
        |j: Json, t: Seq<char>| j == Json::Str(t),
    );
}

// The records.

/// A column is decoded exactly if the JSON value describes one, and to the one that it describes.
pub proof fn law_columns_decode_to_what_is_described(json: Json, column: ColumnMetadataView)
    ensures
        column_metadata(json) == Ok::<ColumnMetadataView, Seq<char>>(column) <==> is_column(
            json,
            column,
        ),
{
    if json is Object {
        let m = json->Object_0;
        lemma_text(m, "name"@);
        lemma_object(m, "type"@, "struct Type"@);
        lemma_flag(m, "isPrimaryKey"@);
        lemma_integer(m, "ordinalPosition"@);
    }
}

/// A row change is decoded exactly if the JSON value describes one, and to the one that it
/// describes.
pub proof fn law_row_changes_decode_to_what_is_described(json: Json, row: ModView)
    ensures
        row_mod(json) == Ok::<ModView, Seq<char>>(row) <==> is_row_mod(json, row),
{
    if json is Object {
        let m = json->Object_0;
        lemma_objects(m, "keys"@, "struct ModValue"@);
        lemma_objects(m, "oldValues"@, "struct ModValue"@);
        lemma_objects(m, "newValues"@, "struct ModValue"@);
    }
}

/// A data change record is decoded exactly if the JSON value describes one, and to the one that it
/// describes.
pub proof fn law_data_changes_decode_to_what_is_described(json: Json, r: DataChangeRecordView)
    ensures
        data_change_record(json) == Ok::<DataChangeRecordView, Seq<char>>(r) <==> is_data_change(
            json,
            r,
        ),
{
    if json is Object {
        let m = json->Object_0;
        lemma_time(m, "commitTimestamp"@);
        lemma_text(m, "recordSequence"@);
        lemma_text(m, "serverTransactionId"@);
        lemma_flag(m, "isLastRecordInTransactionInPartition"@);
        lemma_text(m, "table"@);
        assert forall|j: Json, c: ColumnMetadataView| #[trigger] is_column(j, c) <==> column_metadata(
            j,
        ) == Ok::<ColumnMetadataView, Seq<char>>(c) by {
            law_columns_decode_to_what_is_described(j, c);
        }
        lemma_list(
            m,
            "columnMetadata"@,
            |json: Json| column_metadata(json),
            |j: Json, c: ColumnMetadataView| is_column(j, c),
        );
        assert forall|j: Json, row: ModView| #[trigger] is_row_mod(j, row) <==> row_mod(j) == Ok::<
            ModView,
            Seq<char>,
        >(row) by {
            law_row_changes_decode_to_what_is_described(j, row);
        }
        lemma_list(
            m,
            "mods"@,
            |json: Json| row_mod(json),
            |j: Json, row: ModView| is_row_mod(j, row),
        );
        lemma_text(m, "modType"@);
        lemma_text(m, "valueCaptureType"@);
        lemma_integer(m, "numberOfRecordsInTransaction"@);
        lemma_integer(m, "numberOfPartitionsInTransaction"@);
        lemma_text(m, "transactionTag"@);
        lemma_flag(m, "isSystemTransaction"@);
    }
}

/// A heartbeat record is decoded exactly if the JSON value describes one, and to the one that it
/// describes.
pub proof fn law_heartbeats_decode_to_what_is_described(json: Json, r: HeartbeatRecord)
    ensures
        heartbeat_record(json) == Ok::<HeartbeatRecord, Seq<char>>(r) <==> is_heartbeat(json, r),
{
    if json is Object {
        lemma_time(json->Object_0, "timestamp"@);
    }
}

/// A partition start record is decoded exactly if the JSON value describes one, and to the one that
/// it describes.
pub proof fn law_partition_starts_decode_to_what_is_described(
    json: Json,
    r: PartitionStartRecordView,
)
    ensures
        partition_start_record(json) == Ok::<PartitionStartRecordView, Seq<char>>(r)
            <==> is_partition_start(json, r),
{
    if json is Object {
        let m = json->Object_0;
        lemma_time(m, "startTimestamp"@);
        lemma_text(m, "recordSequence"@);
        lemma_texts(m, "partitionTokens"@);
    }
}

/// A partition end record is decoded exactly if the JSON value describes one, and to the one that it
/// describes.
pub proof fn law_partition_ends_decode_to_what_is_described(json: Json, r: PartitionEndRecordView)
    ensures
        partition_end_record(json) == Ok::<PartitionEndRecordView, Seq<char>>(r)
            <==> is_partition_end(json, r),
{
    if json is Object {
        let m = json->Object_0;
        lemma_time(m, "endTimestamp"@);
        lemma_text(m, "recordSequence"@);
        lemma_text(m, "partitionToken"@);
    }
}

/// A partition event record is decoded exactly if the JSON value describes one, and to the one that
/// it describes.
pub proof fn law_partition_events_decode_to_what_is_described(
    json: Json,
    r: PartitionEventRecordView,
)
    ensures
        partition_event_record(json) == Ok::<PartitionEventRecordView, Seq<char>>(r)
            <==> is_partition_event(json, r),
{
    if json is Object {
        let m = json->Object_0;
        lemma_time(m, "commitTimestamp"@);
        lemma_text(m, "recordSequence"@);
        lemma_text(m, "partitionToken"@);
        lemma_objects(m, "moveInEvents"@, "struct MoveInEvent"@);
        lemma_objects(m, "moveOutEvents"@, "struct MoveOutEvent"@);
    }
}

/// A change stream record is decoded exactly if the JSON value describes one, and to the one that it
/// describes.
pub proof fn law_records_decode_to_what_is_described(json: Json, record: Option<RecordView>)
    ensures
        stream_record(json) == Ok::<Option<RecordView>, Seq<char>>(record) <==> is_record(
            json,
            record,
        ),
{
    if json is Object {
        let m = json->Object_0;
        law_lookup_finds_the_first_member(m, "dataChangeRecord"@);
        law_lookup_finds_the_first_member(m, "heartbeatRecord"@);
        law_lookup_finds_the_first_member(m, "partitionStartRecord"@);
        law_lookup_finds_the_first_member(m, "partitionEndRecord"@);
        law_lookup_finds_the_first_member(m, "partitionEventRecord"@);
        lemma_count_set_of_record_names(m);
        assert forall|j: Json, r: DataChangeRecordView| #[trigger] is_data_change(j, r)
            <==> data_change_record(j) == Ok::<DataChangeRecordView, Seq<char>>(r) by {
            law_data_changes_decode_to_what_is_described(j, r);
        }
        assert forall|j: Json, r: HeartbeatRecord| #[trigger] is_heartbeat(j, r)
            <==> heartbeat_record(j) == Ok::<HeartbeatRecord, Seq<char>>(r) by {
            law_heartbeats_decode_to_what_is_described(j, r);
        }
        assert forall|j: Json, r: PartitionStartRecordView| #[trigger] is_partition_start(j, r)
            <==> partition_start_record(j) == Ok::<PartitionStartRecordView, Seq<char>>(r) by {
            law_partition_starts_decode_to_what_is_described(j, r);
        }
        assert forall|j: Json, r: PartitionEndRecordView| #[trigger] is_partition_end(j, r)
            <==> partition_end_record(j) == Ok::<PartitionEndRecordView, Seq<char>>(r) by {
            law_partition_ends_decode_to_what_is_described(j, r);
        }
        assert forall|j: Json, r: PartitionEventRecordView| #[trigger] is_partition_event(j, r)
            <==> partition_event_record(j) == Ok::<PartitionEventRecordView, Seq<char>>(r) by {
            law_partition_events_decode_to_what_is_described(j, r);
        }
    }
}

// What single fields are decoded to.

/// A Boolean is decoded as it was sent: `true` to true and `false` to false, in each of the fields
/// that hold one.
pub proof fn law_booleans_decode_as_sent(members: Members, inner: Members, r: DataChangeRecordView)
    requires
        under(members, "dataChangeRecord"@) == Json::Object(inner),
        stream_record(Json::Object(members)) == Ok::<Option<RecordView>, Seq<char>>(
            Some(RecordView::DataChange(r)),
        ),
    ensures
        under(inner, "isSystemTransaction"@) == Json::Bool(true) ==> r.is_system_transaction,
        under(inner, "isSystemTransaction"@) == Json::Bool(false) ==> !r.is_system_transaction,
        under(inner, "isLastRecordInTransactionInPartition"@) == Json::Bool(true)
            ==> r.is_last_record_in_transaction_in_partition,
        under(inner, "isLastRecordInTransactionInPartition"@) == Json::Bool(false)
            ==> !r.is_last_record_in_transaction_in_partition,
        under(inner, "columnMetadata"@) is Array ==> {
            let columns = under(inner, "columnMetadata"@)->Array_0;
            &&& r.column_metadata.len() == columns.len()
            &&& forall|i: int|
                #![trigger r.column_metadata[i]]
                0 <= i < columns.len() ==> {
                    let sent = under(columns[i]->Object_0, "isPrimaryKey"@);
                    &&& columns[i] is Object
                    &&& sent == Json::Bool(true) ==> r.column_metadata[i].is_primary_key
                    &&& sent == Json::Bool(false) ==> !r.column_metadata[i].is_primary_key
                }
        },
{
    law_records_decode_to_what_is_described(
        Json::Object(members),
        Some(RecordView::DataChange(r)),
    );
}

/// All tokens of a partition start record are decoded: as many as were sent, in the order in which
/// they were sent, each with its own text.
pub proof fn law_all_partition_tokens_are_decoded(
    members: Members,
    inner: Members,
    tokens: Seq<Json>,
    r: PartitionStartRecordView,
)
    requires
        under(members, "partitionStartRecord"@) == Json::Object(inner),
        under(inner, "partitionTokens"@) == Json::Array(tokens),
        stream_record(Json::Object(members)) == Ok::<Option<RecordView>, Seq<char>>(
            Some(RecordView::PartitionStart(r)),
        ),
    ensures
        r.partition_tokens.len() == tokens.len(),
        forall|i: int|
            0 <= i < tokens.len() ==> tokens[i] == Json::Str(#[trigger] r.partition_tokens[i]),
{
    law_records_decode_to_what_is_described(
        Json::Object(members),
        Some(RecordView::PartitionStart(r)),
    );
}

/// The events of a partition event record are decoded whole: the objects that were sent, in the
/// order in which they were sent, with all their members.
pub proof fn law_events_are_decoded_whole(
    members: Members,
    inner: Members,
    r: PartitionEventRecordView,
)
    requires
        under(members, "partitionEventRecord"@) == Json::Object(inner),
        stream_record(Json::Object(members)) == Ok::<Option<RecordView>, Seq<char>>(
            Some(RecordView::PartitionEvent(r)),
        ),
    ensures
        under(inner, "moveInEvents"@) is Array ==> under(inner, "moveInEvents"@) == Json::Array(
            r.move_in_events,
        ),
        under(inner, "moveInEvents"@) == Json::Null ==> r.move_in_events.len() == 0,
        under(inner, "moveOutEvents"@) is Array ==> under(inner, "moveOutEvents"@) == Json::Array(
            r.move_out_events,
        ),
        under(inner, "moveOutEvents"@) == Json::Null ==> r.move_out_events.len() == 0,
{
    law_records_decode_to_what_is_described(
        Json::Object(members),
        Some(RecordView::PartitionEvent(r)),
    );
    assert(under(inner, "moveInEvents"@)->Array_0 =~= r.move_in_events
        || under(inner, "moveInEvents"@) == Json::Null);
    assert(under(inner, "moveOutEvents"@)->Array_0 =~= r.move_out_events
        || under(inner, "moveOutEvents"@) == Json::Null);
}

/// The values of a row change are decoded whole: keys, old values and new values are the objects
/// that were sent, in the order in which they were sent, with all their members.
pub proof fn law_row_values_are_decoded_whole(members: Members, row: ModView)
    requires
        row_mod(Json::Object(members)) == Ok::<ModView, Seq<char>>(row),
    ensures
        under(members, "keys"@) is Array ==> under(members, "keys"@) == Json::Array(row.keys),
        under(members, "oldValues"@) is Array ==> under(members, "oldValues"@) == Json::Array(
            row.old_values,
        ),
        under(members, "newValues"@) is Array ==> under(members, "newValues"@) == Json::Array(
            row.new_values,
        ),
{
    law_row_changes_decode_to_what_is_described(Json::Object(members), row);
    assert(under(members, "keys"@)->Array_0 =~= row.keys || under(members, "keys"@) == Json::Null);
    assert(under(members, "oldValues"@)->Array_0 =~= row.old_values || under(members, "oldValues"@)
        == Json::Null);
    assert(under(members, "newValues"@)->Array_0 =~= row.new_values || under(members, "newValues"@)
        == Json::Null);
}

/// A heartbeat's timestamp is the point in time that was sent, to the nanosecond; there is none
/// exactly where none was sent.
pub proof fn law_heartbeats_keep_their_timestamp(
    members: Members,
    inner: Members,
    r: HeartbeatRecord,
)
    requires
        under(members, "heartbeatRecord"@) == Json::Object(inner),
        stream_record(Json::Object(members)) == Ok::<Option<RecordView>, Seq<char>>(
            Some(RecordView::Heartbeat(r)),
        ),
    ensures
        under(inner, "timestamp"@) is Str ==> match rfc3339_instant(
            under(inner, "timestamp"@)->Str_0,
        ) {
            Some((seconds, nanos)) => r.timestamp == Some(Timestamp { seconds, nanos }),
            None => false,
        },
        r.timestamp is None <==> under(inner, "timestamp"@) == Json::Null,
{
    law_records_decode_to_what_is_described(Json::Object(members), Some(RecordView::Heartbeat(r)));
}

/// A timestamp is decoded exactly if the JSON value is `null` or a string whose text denotes a point
/// in time, and to that point in time.
pub proof fn law_timestamps_decode_to_the_instant(
    json: Json,
    instant: Option<(i64, u32)>,
    time: Option<Timestamp>,
)
    ensures
        timestamp_item(json, instant) == Ok::<Option<Timestamp>, Seq<char>>(time) <==> match time {
            None => json == Json::Null,
            Some(at) => json is Str && instant == Some((at.seconds, at.nanos)),
        },
{
}

/// A column parses exactly if it is `null` or an array of records, and then yields, at the position
/// of each element, the record that the element describes, and no others.
pub proof fn law_columns_parse_to_what_is_described(json: Json, records: Seq<Option<RecordView>>)
    ensures
        column_records(json) == Ok::<Seq<Option<RecordView>>, Seq<char>>(records) <==> {
            ||| json == Json::Null && records.len() == 0
            ||| {
                &&& json is Array
                &&& json->Array_0.len() == records.len()
                &&& forall|i: int|
                    0 <= i < records.len() ==> is_record(json->Array_0[i], #[trigger] records[i])
            }
        },
{
    if json is Array {
        let items = json->Array_0;
        law_records_keep_number_and_order(items);
        assert forall|i: int| 0 <= i < records.len() && records.len() == items.len() implies (
        is_record(items[i], #[trigger] records[i]) <==> stream_record(items[i]) == Ok::<
            Option<RecordView>,
            Seq<char>,
        >(records[i])) by {
            law_records_decode_to_what_is_described(items[i], records[i]);
        }
        if records.len() == items.len() && (forall|i: int|
            0 <= i < records.len() ==> is_record(items[i], #[trigger] records[i])) {
            assert forall|i: int| 0 <= i < items.len() implies stream_record(
                #[trigger] items[i],
            ) is Ok by {
                assert(is_record(items[i], records[i]));
            }
            let found = column_records(json)->Ok_0;
            assert forall|i: int| 0 <= i < items.len() implies found[i] == records[i] by {
                assert(is_record(items[i], records[i]));
            }
            assert(found =~= records);
        }
    } else if json == Json::Null && records.len() == 0 {
        assert(records =~= Seq::empty());
    }
}

} // verus!
