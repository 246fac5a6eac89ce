//! How the operations of the library work together.

use crate::decode::decode_record;
use crate::error::{Error, InternalError};
use crate::fault_laws::{
    column_value_fault, law_columns_of_records_are_refused_for_their_first_fault,
    law_records_are_refused_for_their_first_fault, record_fault,
};
use crate::identifier::{escape_identifier, law_names_are_quoted_or_refused};
use crate::json::{json_of, Json, JsonValue};
use crate::parse::parse_change_stream_records;
use crate::query::{
    law_integer_parameters_travel_in_digits, law_parameters_are_bound_to_their_setters,
    law_sql_is_fixed_but_for_the_name, ChangeStreamQueryBuilder, ParamValue, ParamView,
    QueryRequest,
};
use crate::record::ChangeStreamRecord;
use crate::record_laws::{
    is_record, law_columns_parse_to_what_is_described, law_records_decode_to_what_is_described,
};
use crate::stream::ChangeStreamRecordStream;
use crate::view_laws::{law_views_keep_lists, law_views_keep_statements};
use crate::wire::{digits_value, is_decimal};
use vstd::prelude::*;

verus! {

/// Whether a request binds the parameter called `name`, once, and to `value`.
pub open spec fn binds<C>(request: QueryRequest<C>, name: Seq<char>, value: ParamView) -> bool {
    let params = request.statement.params@;
    exists|i: int|
        {
            &&& 0 <= i < params.len()
            &&& (#[trigger] params[i]).0@ == name
            &&& params[i].1.deep_view() == value
            &&& forall|j: int| 0 <= j < params.len() && (#[trigger] params[j]).0@ == name ==> j == i
        }
}

/// A request binds each parameter to what the query was given for it.
pub proof fn law_requests_bind_the_settings<C>(
    query: ChangeStreamQueryBuilder<C>,
    request: QueryRequest<C>,
)
    requires
        call_ensures(ChangeStreamQueryBuilder::<C>::execute, (query,), Ok(request)),
    ensures
        request.client == query@.client,
        request.statement.params@.len() == 4,
        binds(request, "start_timestamp"@, ParamView::Timestamp(query@.start_timestamp)),
        binds(request, "end_timestamp"@, ParamView::Timestamp(query@.end_timestamp)),
        binds(request, "partition_token"@, ParamView::String(query@.partition_token)),
        binds(request, "heartbeat_milliseconds"@, ParamView::Int64(query@.heartbeat_milliseconds)),
{
    law_views_keep_statements(request.statement);
    law_parameters_are_bound_to_their_setters(query@);
    let params = request.statement.params@;
    assert(params[0].0@ == "start_timestamp"@);
    assert(params[1].0@ == "end_timestamp"@);
    assert(params[2].0@ == "partition_token"@);
    assert(params[3].0@ == "heartbeat_milliseconds"@);
}

/// A new query asks for the named stream and is given nothing else: no timestamps, no partition
/// token, and the interval of ten seconds.
pub proof fn law_new_queries_are_unset<C>(
    client: C,
    name: &str,
    query: ChangeStreamQueryBuilder<C>,
)
    requires
        call_ensures(ChangeStreamQueryBuilder::<C>::new, (client, name), query),
    ensures
        query@.client == client,
        query@.change_stream_name == name@,
        query@.start_timestamp is None,
        query@.end_timestamp is None,
        query@.partition_token is None,
        query@.heartbeat_milliseconds == 10_000,
{
}

/// Setting the start timestamp sets it and nothing else.
pub proof fn law_start_timestamps_are_set_alone<C>(
    query: ChangeStreamQueryBuilder<C>,
    ts: time::OffsetDateTime,
    set: ChangeStreamQueryBuilder<C>,
)
    requires
        call_ensures(ChangeStreamQueryBuilder::<C>::with_start_timestamp, (query, ts), set),
    ensures
        set@.start_timestamp == Some(ts),
        set@.client == query@.client,
        set@.change_stream_name == query@.change_stream_name,
        set@.end_timestamp == query@.end_timestamp,
        set@.partition_token == query@.partition_token,
        set@.heartbeat_milliseconds == query@.heartbeat_milliseconds,
{
}

/// Setting the end timestamp sets it and nothing else.
pub proof fn law_end_timestamps_are_set_alone<C>(
    query: ChangeStreamQueryBuilder<C>,
    ts: time::OffsetDateTime,
    set: ChangeStreamQueryBuilder<C>,
)
    requires
        call_ensures(ChangeStreamQueryBuilder::<C>::with_end_timestamp, (query, ts), set),
    ensures
        set@.end_timestamp == Some(ts),
        set@.client == query@.client,
        set@.change_stream_name == query@.change_stream_name,
        set@.start_timestamp == query@.start_timestamp,
        set@.partition_token == query@.partition_token,
        set@.heartbeat_milliseconds == query@.heartbeat_milliseconds,
{
}

/// Setting the partition token sets it and nothing else.
pub proof fn law_partition_tokens_are_set_alone<C>(
    query: ChangeStreamQueryBuilder<C>,
    token: &str,
    set: ChangeStreamQueryBuilder<C>,
)
    requires
        call_ensures(ChangeStreamQueryBuilder::<C>::with_partition_token, (query, token), set),
    ensures
        set@.partition_token == Some(token@),
        set@.client == query@.client,
        set@.change_stream_name == query@.change_stream_name,
        set@.start_timestamp == query@.start_timestamp,
        set@.end_timestamp == query@.end_timestamp,
        set@.heartbeat_milliseconds == query@.heartbeat_milliseconds,
{
}

/// Setting the heartbeat interval sets it and nothing else.
pub proof fn law_heartbeat_intervals_are_set_alone<C>(
    query: ChangeStreamQueryBuilder<C>,
    ms: i64,
    set: ChangeStreamQueryBuilder<C>,
)
    requires
        call_ensures(ChangeStreamQueryBuilder::<C>::with_heartbeat_milliseconds, (query, ms), set),
    ensures
        set@.heartbeat_milliseconds == ms,
        set@.client == query@.client,
        set@.change_stream_name == query@.change_stream_name,
        set@.start_timestamp == query@.start_timestamp,
        set@.end_timestamp == query@.end_timestamp,
        set@.partition_token == query@.partition_token,
{
}

/// A query that was only given a start timestamp and a heartbeat interval binds these two, and
/// `NULL` as the end timestamp and the partition token.
pub proof fn law_unset_parameters_are_null<C>(
    client: C,
    name: &str,
    ts: time::OffsetDateTime,
    ms: i64,
    fresh: ChangeStreamQueryBuilder<C>,
    started: ChangeStreamQueryBuilder<C>,
    query: ChangeStreamQueryBuilder<C>,
    request: QueryRequest<C>,
)
    requires
        call_ensures(ChangeStreamQueryBuilder::<C>::new, (client, name), fresh),
        call_ensures(ChangeStreamQueryBuilder::<C>::with_start_timestamp, (fresh, ts), started),
        call_ensures(
            ChangeStreamQueryBuilder::<C>::with_heartbeat_milliseconds,
            (started, ms),
            query,
        ),
        call_ensures(ChangeStreamQueryBuilder::<C>::execute, (query,), Ok(request)),
    ensures
        request.client == client,
        binds(request, "start_timestamp"@, ParamView::Timestamp(Some(ts))),
        binds(request, "end_timestamp"@, ParamView::Timestamp(None)),
        binds(request, "partition_token"@, ParamView::String(None)),
        binds(request, "heartbeat_milliseconds"@, ParamView::Int64(ms)),
{
    law_new_queries_are_unset(client, name, fresh);
    law_start_timestamps_are_set_alone(fresh, ts, started);
    law_heartbeat_intervals_are_set_alone(started, ms, query);
    law_requests_bind_the_settings(query, request);
}

/// A request sends the fixed text that calls the table-valued function `READ_` of the change
/// stream, whose name stands between backticks.
pub proof fn law_requests_read_the_stream<C>(
    query: ChangeStreamQueryBuilder<C>,
    request: QueryRequest<C>,
)
    requires
        call_ensures(ChangeStreamQueryBuilder::<C>::execute, (query,), Ok(request)),
    ensures
        request.statement.sql@ == "SELECT ChangeRecord FROM READ_"@ + seq!['`']
            + query@.change_stream_name + seq!['`']
            + "(start_timestamp => @start_timestamp, end_timestamp => @end_timestamp, partition_token => @partition_token, read_options => null, heartbeat_milliseconds => @heartbeat_milliseconds)"@,
{
    law_views_keep_statements(request.statement);
    law_sql_is_fixed_but_for_the_name(query@);
}

/// A query is refused exactly where its name is, and with the same message as the name.
pub proof fn law_queries_are_refused_with_their_names<C>(
    query: ChangeStreamQueryBuilder<C>,
    outcome: Result<QueryRequest<C>, InternalError>,
    name: &str,
    escaped: Result<String, InternalError>,
)
    requires
        name@ == query@.change_stream_name,
        call_ensures(ChangeStreamQueryBuilder::<C>::execute, (query,), outcome),
        call_ensures(escape_identifier, (name,), escaped),
    ensures
        outcome is Ok <==> escaped is Ok,
        outcome is Err ==> outcome->Err_0.message@ == escaped->Err_0.message@,
        escaped is Ok ==> escaped->Ok_0@ == seq!['`'] + name@ + seq!['`'],
{
    law_sql_is_fixed_but_for_the_name(query@);
    law_names_are_quoted_or_refused(name@);
}

/// Parsing a column yields, at the position of each element of its array, the record that the
/// element describes, and no others; or the message for its first fault.
pub proof fn law_columns_are_parsed_or_refused(
    value: &serde_json::Value,
    outcome: Result<Vec<ChangeStreamRecord>, InternalError>,
)
    requires
        call_ensures(parse_change_stream_records, (value,), outcome),
    ensures
        match outcome {
            Ok(records) => {
                let json = json_of(*value);
                ||| json == Json::Null && records@.len() == 0
                ||| {
                    &&& json is Array
                    &&& json->Array_0.len() == records@.len()
                    &&& forall|i: int|
                        0 <= i < records@.len() ==> is_record(
                            json->Array_0[i],
                            (#[trigger] records@[i]).deep_view(),
                        )
                }
            },
            Err(error) => column_value_fault(json_of(*value)) == Some(error.message@),
        },
        outcome is Ok <==> column_value_fault(json_of(*value)) is None,
{
    let json = json_of(*value);
    law_columns_of_records_are_refused_for_their_first_fault(json);
    if outcome is Ok {
        let records = outcome->Ok_0;
        law_views_keep_lists(records);
        law_columns_parse_to_what_is_described(json, records.deep_view());
        assert forall|i: int|
            0 <= i < records@.len() && json is Array && json->Array_0.len()
                == records@.len() implies is_record(
            json->Array_0[i],
            (#[trigger] records@[i]).deep_view(),
        ) by {
            assert(records.deep_view()[i] == records@[i].deep_view());
        }
    }
}

/// Decoding one record yields the record that the JSON value describes, or the message for its first
/// fault.
pub proof fn law_records_are_decoded_or_refused(
    json: &JsonValue,
    outcome: Result<ChangeStreamRecord, InternalError>,
)
    requires
        call_ensures(decode_record, (json,), outcome),
    ensures
        match outcome {
            Ok(record) => is_record(json.deep_view(), record.deep_view()),
            Err(error) => record_fault(json.deep_view()) == Some(error.message@),
        },
        outcome is Ok <==> record_fault(json.deep_view()) is None,
{
    law_records_are_refused_for_their_first_fault(json.deep_view());
    if outcome is Ok {
        law_records_decode_to_what_is_described(json.deep_view(), outcome->Ok_0.deep_view());
    }
}

/// A copy of a JSON value, and what is read of a `serde_json` value, hold what the value holds.
pub proof fn law_json_values_are_read_whole(
    value: &serde_json::Value,
    read: JsonValue,
    json: &JsonValue,
    copy: JsonValue,
)
    requires
        call_ensures(JsonValue::from_serde, (value,), read),
        call_ensures(JsonValue::clone, (json,), copy),
    ensures
        read.deep_view() == json_of(*value),
        copy.deep_view() == json.deep_view(),
{
}

/// The text under which a parameter travels is there exactly if it is an integer, and reads back as
/// its value.
pub proof fn law_integer_texts_read_back(value: &ParamValue, text: Option<String>)
    requires
        call_ensures(ParamValue::int64_text, (value,), text),
    ensures
        text is Some <==> value is Int64,
        text is Some ==> {
            let n = value->Int64_0;
            let digits = text->0@;
            &&& n >= 0 ==> is_decimal(digits) && digits_value(digits) == n
            &&& n < 0 ==> {
                &&& digits.len() > 0 && digits[0] == '-'
                &&& is_decimal(digits.drop_first())
                &&& digits_value(digits.drop_first()) == -n
            }
        },
{
    law_integer_parameters_travel_in_digits(value.deep_view());
}

/// The stream over a result set pulls from that result set; the service's error is passed on.
pub proof fn law_streams_open_on_the_reply<R, S>(
    reply: Result<R, S>,
    stream: Result<ChangeStreamRecordStream<R>, Error<S>>,
)
    requires
        call_ensures(ChangeStreamRecordStream::<R>::open::<S>, (reply,), stream),
    ensures
        stream is Ok <==> reply is Ok,
        reply is Ok ==> stream->Ok_0.result_set == reply->Ok_0,
        reply is Err ==> stream->Err_0 == Error::Service(reply->Err_0),
{
}

} // verus!
