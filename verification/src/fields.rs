//! Reading the fields of JSON objects.

use crate::error::{same_outcome, InternalError};
use crate::json::{Json, JsonNumber, JsonValue};
use crate::record::Timestamp;
use crate::text::{debug_format, debug_text};
use vstd::prelude::*;

verus! {

/// The members of a JSON object.
pub type Members = Seq<(Seq<char>, Json)>;

/// The value of the member called `name`. A member that is missing counts as `null`.
pub open spec fn member(members: Members, name: Seq<char>) -> Json
    decreases members.len(),
{
    if members.len() == 0 {
        Json::Null
    } else if members[0].0 == name {
        members[0].1
    } else {
        member(members.drop_first(), name)
    }
}

/// How messages describe `json`, where `formatted` is its text in the `Debug` format if it is a
/// string.
pub open spec fn description_with(json: Json, formatted: Seq<char>) -> Seq<char> {
    match json {
        Json::Null => "null"@,
        Json::Bool(true) => "boolean `true`"@,
        Json::Bool(false) => "boolean `false`"@,
        Json::Number { text, is_float: true, .. } => "floating point `"@ + text + "`"@,
        Json::Number { text, is_float: false, .. } => "integer `"@ + text + "`"@,
        Json::Str(_) => "string "@ + formatted,
        Json::Array(_) => "sequence"@,
        Json::Object(_) => "map"@,
    }
}

/// How messages describe `json`, as `serde_json` does.
pub open spec fn description(json: Json) -> Seq<char> {
    match json {
        Json::Str(text) => description_with(json, debug_text(text)),
        _ => description_with(json, Seq::empty()),
    }
}

/// The message of `serde_json` for a value whose type is not what was expected.
pub open spec fn invalid_type(json: Json, expected: Seq<char>) -> Seq<char> {
    "invalid type: "@ + description(json) + ", expected "@ + expected
}

/// The message of `serde_json` for a value of the right type that is not what was expected.
pub open spec fn invalid_value(json: Json, expected: Seq<char>) -> Seq<char> {
    "invalid value: "@ + description(json) + ", expected "@ + expected
}

/// Decodes every item in turn; the first item that fails decides the error.
pub open spec fn decoded_all<T>(
    items: Seq<Json>,
    decoded: spec_fn(Json) -> Result<T, Seq<char>>,
) -> Result<Seq<T>, Seq<char>>
    decreases items.len(),
{
    if items.len() == 0 {
        Ok(Seq::empty())
    } else {
        match decoded_all(items.drop_last(), decoded) {
            Err(message) => Err(message),
            Ok(values) => match decoded(items.last()) {
                Err(message) => Err(message),
                Ok(value) => Ok(values.push(value)),
            },
        }
    }
}

/// Describes a JSON value for a message, given its text in the `Debug` format if it is a string.
pub fn describe_with(json: &JsonValue, formatted: &str) -> (described: String)
    ensures
        described@ == description_with(json.deep_view(), formatted@),
{
    match json {
        JsonValue::Null => "null".to_owned(),
        JsonValue::Bool(true) => "boolean `true`".to_owned(),
        JsonValue::Bool(false) => "boolean `false`".to_owned(),
        JsonValue::Number(n) => {
            let mut described = if n.is_float {
                "floating point `".to_owned()
            } else {
                "integer `".to_owned()
            };
            described.append(n.text.as_str());
            described.append("`");
            described
        },
        JsonValue::String(_) => {
            let mut described = "string ".to_owned();
            described.append(formatted);
            described
        },
        JsonValue::Array(_) => "sequence".to_owned(),
        JsonValue::Object(_) => "map".to_owned(),
    }
}

/// Describes a JSON value for a message.
fn describe(json: &JsonValue) -> (described: String)
    ensures
        described@ == description(json.deep_view()),
{
    let formatted = match json {
        JsonValue::String(text) => debug_format(text.as_str()),
        _ => String::new(),
    };
    describe_with(json, formatted.as_str())
}

/// The error for a value whose type is not what was expected.
fn invalid_type_error(json: &JsonValue, expected: &str) -> (error: InternalError)
    ensures
        error.deep_view() == invalid_type(json.deep_view(), expected@),
{
    let mut message = "invalid type: ".to_owned();
    message.append(describe(json).as_str());
    message.append(", expected ");
    message.append(expected);
    InternalError { message }
}

/// The error for a value of the right type that is not what was expected.
fn invalid_value_error(json: &JsonValue, expected: &str) -> (error: InternalError)
    ensures
        error.deep_view() == invalid_value(json.deep_view(), expected@),
{
    let mut message = "invalid value: ".to_owned();
    message.append(describe(json).as_str());
    message.append(", expected ");
    message.append(expected);
    InternalError { message }
}

/// Finds the member called `name`.
fn find<'a>(members: &'a Vec<(String, JsonValue)>, name: &str) -> (found: Option<&'a JsonValue>)
    ensures
        match found {
            Some(json) => json.deep_view() == member(members.deep_view(), name@),
            None => member(members.deep_view(), name@) == Json::Null,
        },
{
    let wanted = name.to_owned();
    assert(members.deep_view().skip(0) =~= members.deep_view());
    for i in 0..members.len()
        invariant
            wanted@ == name@,
            member(members.deep_view(), name@) == member(members.deep_view().skip(i as int), name@),
    {
        let ghost rest = members.deep_view().skip(i as int);
        assert(rest[0] == (members@[i as int].0@, members@[i as int].1.model()));
        if members[i].0 == wanted {
            return Some(&members[i].1);
        }
        assert(rest.drop_first() =~= members.deep_view().skip(i + 1));
    }
    None
}

/// Finds the member called `name`, unless it is `null`.
pub(crate) fn find_set<'a>(members: &'a Vec<(String, JsonValue)>, name: &str) -> (found: Option<
    &'a JsonValue,
>)
    ensures
        found.deep_view() == if member(members.deep_view(), name@) is Null {
            None
        } else {
            Some(member(members.deep_view(), name@))
        },
{
    match find(members, name) {
        None | Some(JsonValue::Null) => None,
        Some(json) => Some(json),
    }
}

/// Decodes every item in turn with `decode`, which does what `decoded` says.
pub(crate) fn decode_all<T: DeepView, F: Fn(&JsonValue) -> Result<T, InternalError>>(
    items: &Vec<JsonValue>,
    decode: F,
    Ghost(decoded): Ghost<spec_fn(Json) -> Result<T::V, Seq<char>>>,
) -> (values: Result<Vec<T>, InternalError>)
    requires
        forall|json: &JsonValue| #[trigger] decode.requires((json,)),
        forall|json: &JsonValue, r: Result<T, InternalError>| #[trigger]
            decode.ensures((json,), r) ==> same_outcome(r, decoded(json.deep_view())),
    ensures
        same_outcome(values, decoded_all(items.deep_view(), decoded)),
{
    let mut values: Vec<T> = Vec::new();
    assert(values.deep_view() =~= Seq::<T::V>::empty());
    for i in 0..items.len()
        invariant
            forall|json: &JsonValue| #[trigger] decode.requires((json,)),
            forall|json: &JsonValue, r: Result<T, InternalError>| #[trigger]
                decode.ensures((json,), r) ==> same_outcome(r, decoded(json.deep_view())),
            same_outcome(
                Ok::<Vec<T>, InternalError>(values),
                decoded_all(items.deep_view().take(i as int), decoded),
            ),
    {
        let ghost done = items.deep_view().take(i + 1);
        assert(done.drop_last() =~= items.deep_view().take(i as int));
        assert(done.last() == items@[i as int].deep_view());
        let ghost before = values.deep_view();
        match decode(&items[i]) {
            Ok(value) => {
                values.push(value);
                assert(values.deep_view() =~= before.push(value.deep_view()));
            },
            Err(error) => {
                proof {
                    lemma_failure_stays(items.deep_view(), decoded, i + 1);
                }
                return Err(error);
            },
        }
    }
    assert(items.deep_view().take(items@.len() as int) =~= items.deep_view());
    Ok(values)
}

/// Items that follow a failure do not change it.
proof fn lemma_failure_stays<T>(
    items: Seq<Json>,
    decoded: spec_fn(Json) -> Result<T, Seq<char>>,
    n: int,
)
    requires
        0 <= n <= items.len(),
        decoded_all(items.take(n), decoded) is Err,
    ensures
        decoded_all(items, decoded) == decoded_all(items.take(n), decoded),
    decreases items.len(),
{
    if n == items.len() {
        assert(items.take(n) =~= items);
    } else {
        assert(items.drop_last().take(n) =~= items.take(n));
        lemma_failure_stays(items.drop_last(), decoded, n);
    }
}

/// Decoding a list succeeds exactly if it succeeds on every item, and then yields the decoded items
/// in the order of the list.
pub proof fn law_lists_decode_item_by_item<T>(
    items: Seq<Json>,
    decoded: spec_fn(Json) -> Result<T, Seq<char>>,
)
    ensures
        decoded_all(items, decoded) is Ok <==> (forall|i: int|
            0 <= i < items.len() ==> decoded(#[trigger] items[i]) is Ok),
        decoded_all(items, decoded) is Ok ==> {
            let values = decoded_all(items, decoded)->Ok_0;
            &&& values.len() == items.len()
            &&& forall|i: int|
                0 <= i < items.len() ==> decoded(items[i]) == Ok::<T, Seq<char>>(
                    #[trigger] values[i],
                )
        },
    decreases items.len(),
{
    if items.len() > 0 {
        let init = items.drop_last();
        law_lists_decode_item_by_item(init, decoded);
        if forall|i: int| 0 <= i < items.len() ==> decoded(#[trigger] items[i]) is Ok {
            assert forall|i: int| 0 <= i < init.len() implies decoded(#[trigger] init[i]) is Ok by {
                assert(init[i] == items[i]);
            }
            assert(items[items.len() - 1] == items.last());
        }
        if decoded_all(items, decoded) is Ok {
            assert forall|i: int| 0 <= i < items.len() implies decoded(#[trigger] items[i]) is Ok by {
                if i < init.len() {
                    assert(init[i] == items[i]);
                }
            }
        }
    }
}

/// The first item that cannot be decoded decides the error of its list.
pub proof fn law_first_failure_decides<T>(
    items: Seq<Json>,
    decoded: spec_fn(Json) -> Result<T, Seq<char>>,
    i: int,
)
    requires
        0 <= i < items.len(),
        decoded(items[i]) is Err,
        forall|k: int| 0 <= k < i ==> decoded(#[trigger] items[k]) is Ok,
    ensures
        decoded_all(items, decoded) == Err::<Seq<T>, Seq<char>>(decoded(items[i])->Err_0),
{
    let before = items.take(i);
    let upto = items.take(i + 1);
    assert forall|k: int| 0 <= k < before.len() implies decoded(#[trigger] before[k]) is Ok by {
        assert(before[k] == items[k]);
    }
    law_lists_decode_item_by_item(before, decoded);
    assert(upto.drop_last() =~= before);
    assert(upto.last() == items[i]);
    lemma_failure_stays(items, decoded, i + 1);
}

/// Decoding a list in two pieces and joining the results is decoding it whole; a failure in the
/// first piece hides the second.
pub proof fn law_lists_decode_piecewise<T>(
    a: Seq<Json>,
    b: Seq<Json>,
    decoded: spec_fn(Json) -> Result<T, Seq<char>>,
)
    ensures
        decoded_all(a + b, decoded) == match (decoded_all(a, decoded), decoded_all(b, decoded)) {
            (Err(message), _) => Err::<Seq<T>, Seq<char>>(message),
            (_, Err(message)) => Err::<Seq<T>, Seq<char>>(message),
            (Ok(x), Ok(y)) => Ok::<Seq<T>, Seq<char>>(x + y),
        },
    decreases b.len(),
{
    if b.len() == 0 {
        assert(a + b =~= a);
        if let Ok(x) = decoded_all(a, decoded) {
            assert(x + Seq::<T>::empty() =~= x);
        }
    } else {
        law_lists_decode_piecewise(a, b.drop_last(), decoded);
        assert((a + b).drop_last() =~= a + b.drop_last());
        assert((a + b).last() == b.last());
        if let (Ok(x), Ok(y)) = (decoded_all(a, decoded), decoded_all(b.drop_last(), decoded)) {
            if let Ok(z) = decoded(b.last()) {
                assert((x + y).push(z) =~= x + y.push(z));
            }
        }
    }
}

/// A member of another name, wherever it stands, does not change what is found under `name`.
pub proof fn law_other_members_do_not_matter(
    members: Members,
    i: int,
    other: (Seq<char>, Json),
    name: Seq<char>,
)
    requires
        0 <= i <= members.len(),
        other.0 != name,
    ensures
        member(members.insert(i, other), name) == member(members, name),
    decreases members.len(),
{
    let more = members.insert(i, other);
    if i == 0 {
        assert(more.drop_first() =~= members);
    } else {
        law_other_members_do_not_matter(members.drop_first(), i - 1, other, name);
        assert(more.drop_first() =~= members.drop_first().insert(i - 1, other));
        assert(more[0] == members[0]);
    }
}

/// The members of `json`, which has to be an object; `expected` says what kind of object.
pub open spec fn object_members(expected: Seq<char>, json: Json) -> Result<Members, Seq<char>> {
    match json {
        Json::Object(members) => Ok(members),
        _ => Err(invalid_type(json, expected)),
    }
}

/// The text of `json`, which has to be a string.
pub open spec fn string_item(json: Json) -> Result<Seq<char>, Seq<char>> {
    match json {
        Json::Str(text) => Ok(text),
        _ => Err(invalid_type(json, "a string"@)),
    }
}

/// `json` itself, which has to be an object; `expected` says what kind of object.
pub open spec fn object_item(expected: Seq<char>, json: Json) -> Result<Json, Seq<char>> {
    match json {
        Json::Object(_) => Ok(json),
        _ => Err(invalid_type(json, expected)),
    }
}

/// A string field: empty where it is missing or `null`.
pub open spec fn string_field(members: Members, name: Seq<char>) -> Result<Seq<char>, Seq<char>> {
    match member(members, name) {
        Json::Null => Ok(Seq::empty()),
        json => string_item(json),
    }
}

/// A Boolean field: false where it is missing or `null`.
pub open spec fn bool_field(members: Members, name: Seq<char>) -> Result<bool, Seq<char>> {
    match member(members, name) {
        Json::Null => Ok(false),
        Json::Bool(b) => Ok(b),
        json => Err(invalid_type(json, "a boolean"@)),
    }
}

/// The message for a value that is not an integer of the range that was expected: an integer has
/// the right type, but not the right value.
pub open spec fn not_an_integer(json: Json, expected: Seq<char>) -> Seq<char> {
    match json {
        Json::Number { is_float: false, .. } => invalid_value(json, expected),
        _ => invalid_type(json, expected),
    }
}

/// A field that holds an `i64`: zero where it is missing or `null`.
pub open spec fn i64_field(members: Members, name: Seq<char>) -> Result<i64, Seq<char>> {
    match member(members, name) {
        Json::Null => Ok(0),
        Json::Number { integer: Some(n), .. } => Ok(n),
        json => Err(not_an_integer(json, "i64"@)),
    }
}

/// A field that holds an `i32`: zero where it is missing or `null`.
pub open spec fn i32_field(members: Members, name: Seq<char>) -> Result<i32, Seq<char>> {
    match member(members, name) {
        Json::Null => Ok(0),
        Json::Number { integer: Some(n), .. } if i32::MIN <= n <= i32::MAX => Ok(n as i32),
        json => Err(not_an_integer(json, "i32"@)),
    }
}

/// The point in time that `time::OffsetDateTime::parse` reads from an RFC 3339 text: the Unix time
/// in seconds and the nanosecond within the second, or `None` where it refuses the text.
pub uninterp spec fn rfc3339_instant(text: Seq<char>) -> Option<(i64, u32)>;

/// The timestamp that `json` gives, where `instant` is the point in time that its text denotes, or
/// `None` where it has no text or the text denotes none.
pub open spec fn timestamp_item(json: Json, instant: Option<(i64, u32)>) -> Result<
    Option<Timestamp>,
    Seq<char>,
> {
    match (json, instant) {
        (Json::Null, _) => Ok(None),
        (Json::Str(_), Some((seconds, nanos))) => Ok(Some(Timestamp { seconds, nanos })),
        (Json::Str(_), None) => Err(invalid_value(json, "a timestamp"@)),
        _ => Err(invalid_type(json, "a timestamp"@)),
    }
}

/// A timestamp field: `None` where it is missing or `null`, else an RFC 3339 text.
pub open spec fn timestamp_field(members: Members, name: Seq<char>) -> Result<
    Option<Timestamp>,
    Seq<char>,
> {
    let json = member(members, name);
    let instant = match json {
        Json::Str(text) => rfc3339_instant(text),
        _ => None,
    };
    timestamp_item(json, instant)
}

/// An object field: `None` where it is missing or `null`.
pub open spec fn object_field(members: Members, name: Seq<char>, expected: Seq<char>) -> Result<
    Option<Json>,
    Seq<char>,
> {
    match member(members, name) {
        Json::Null => Ok(None),
        json => match object_item(expected, json) {
            Ok(object) => Ok(Some(object)),
            Err(message) => Err(message),
        },
    }
}

/// A list field: empty where it is missing or `null`, else an array of what `decoded` accepts.
pub open spec fn list_field<T>(
    members: Members,
    name: Seq<char>,
    decoded: spec_fn(Json) -> Result<T, Seq<char>>,
) -> Result<Seq<T>, Seq<char>> {
    match member(members, name) {
        Json::Null => Ok(Seq::empty()),
        Json::Array(items) => decoded_all(items, decoded),
        json => Err(invalid_type(json, "a sequence"@)),
    }
}

/// `time::OffsetDateTime::parse` with the `Rfc3339` format: the Unix time in seconds and the
/// nanosecond of the point in time that was read, or `None` where the text was refused. The outcome
/// is a function of the text alone, and the call does not panic. Which texts are refused, and
/// which point in time each of the others denotes, is left unsaid.
#[verifier::external_body]
fn parse_rfc3339(text: &str) -> (instant: Option<(i64, u32)>)
    ensures
        instant == rfc3339_instant(text@),
{
    match time::OffsetDateTime::parse(text, &time::format_description::well_known::Rfc3339) {
        Ok(parsed) => Some((parsed.unix_timestamp(), parsed.nanosecond())),
        Err(_) => None,
    }
}

/// Reads an object's members.
pub(crate) fn read_members<'a>(expected: &str, json: &'a JsonValue) -> (members: Result<
    &'a Vec<(String, JsonValue)>,
    InternalError,
>)
    ensures
        same_outcome(members, object_members(expected@, json.deep_view())),
{
    match json {
        JsonValue::Object(members) => {
            assert(json.model()->Object_0 =~= members.deep_view());
            Ok(members)
        },
        _ => Err(invalid_type_error(json, expected)),
    }
}

/// Reads a string.
fn read_string_item(json: &JsonValue) -> (text: Result<String, InternalError>)
    ensures
        same_outcome(text, string_item(json.deep_view())),
{
    match json {
        JsonValue::String(text) => Ok(text.clone()),
        _ => Err(invalid_type_error(json, "a string")),
    }
}

/// Reads an object, whatever its members are.
fn read_object_item(expected: &str, json: &JsonValue) -> (object: Result<JsonValue, InternalError>)
    ensures
        same_outcome(object, object_item(expected@, json.deep_view())),
{
    match json {
        JsonValue::Object(_) => Ok(json.clone()),
        _ => Err(invalid_type_error(json, expected)),
    }
}

/// Reads a string field.
pub(crate) fn read_string(members: &Vec<(String, JsonValue)>, name: &str) -> (text: Result<
    String,
    InternalError,
>)
    ensures
        same_outcome(text, string_field(members.deep_view(), name@)),
{
    match find_set(members, name) {
        None => Ok(String::new()),
        Some(json) => read_string_item(json),
    }
}

/// Reads a Boolean field.
pub(crate) fn read_bool(members: &Vec<(String, JsonValue)>, name: &str) -> (value: Result<
    bool,
    InternalError,
>)
    ensures
        same_outcome(value, bool_field(members.deep_view(), name@)),
{
    match find_set(members, name) {
        None => Ok(false),
        Some(JsonValue::Bool(b)) => Ok(*b),
        Some(json) => Err(invalid_type_error(json, "a boolean")),
    }
}

/// The error for a value that is not an integer of the range that was expected.
fn not_an_integer_error(json: &JsonValue, expected: &str) -> (error: InternalError)
    ensures
        error.deep_view() == not_an_integer(json.deep_view(), expected@),
{
    match json {
        JsonValue::Number(JsonNumber { is_float: false, .. }) => invalid_value_error(
            json,
            expected,
        ),
        _ => invalid_type_error(json, expected),
    }
}

/// Reads a field that holds an `i64`.
pub(crate) fn read_i64(members: &Vec<(String, JsonValue)>, name: &str) -> (value: Result<
    i64,
    InternalError,
>)
    ensures
        same_outcome(value, i64_field(members.deep_view(), name@)),
{
    match find_set(members, name) {
        None => Ok(0),
        Some(JsonValue::Number(JsonNumber { integer: Some(n), .. })) => Ok(*n),
        Some(json) => Err(not_an_integer_error(json, "i64")),
    }
}

/// Reads a field that holds an `i32`.
pub(crate) fn read_i32(members: &Vec<(String, JsonValue)>, name: &str) -> (value: Result<
    i32,
    InternalError,
>)
    ensures
        same_outcome(value, i32_field(members.deep_view(), name@)),
{
    match find_set(members, name) {
        None => Ok(0),
        Some(json) => {
            if let JsonValue::Number(JsonNumber { integer: Some(n), .. }) = json {
                if i32::MIN as i64 <= *n && *n <= i32::MAX as i64 {
                    return Ok(*n as i32);
                }
            }
            Err(not_an_integer_error(json, "i32"))
        },
    }
}

/// Makes a timestamp of a JSON value, given the point in time that its text denotes, if it has such
/// a text.
pub fn timestamp_from(json: &JsonValue, instant: Option<(i64, u32)>) -> (value: Result<
    Option<Timestamp>,
    InternalError,
>)
    ensures
        same_outcome(value, timestamp_item(json.deep_view(), instant)),
{
    match (json, instant) {
        (JsonValue::Null, _) => Ok(None),
        (JsonValue::String(_), Some((seconds, nanos))) => Ok(Some(Timestamp { seconds, nanos })),
        (JsonValue::String(_), None) => Err(invalid_value_error(json, "a timestamp")),
        _ => Err(invalid_type_error(json, "a timestamp")),
    }
}

/// Reads a timestamp field.
pub(crate) fn read_timestamp(members: &Vec<(String, JsonValue)>, name: &str) -> (value: Result<
    Option<Timestamp>,
    InternalError,
>)
    ensures
        same_outcome(value, timestamp_field(members.deep_view(), name@)),
{
    match find(members, name) {
        None => Ok(None),
        Some(json) => {
            let instant = match json {
                JsonValue::String(text) => parse_rfc3339(text.as_str()),
                _ => None,
            };
            timestamp_from(json, instant)
        },
    }
}

/// Reads an object field.
pub(crate) fn read_object(
    members: &Vec<(String, JsonValue)>,
    name: &str,
    expected: &str,
) -> (object: Result<Option<JsonValue>, InternalError>)
    ensures
        same_outcome(object, object_field(members.deep_view(), name@, expected@)),
{
    match find_set(members, name) {
        None => Ok(None),
        Some(json) => Ok(Some(read_object_item(expected, json)?)),
    }
}

/// Reads a list field, each item by `decode`, which does what `decoded` says.
pub(crate) fn read_list<T: DeepView, F: Fn(&JsonValue) -> Result<T, InternalError>>(
    members: &Vec<(String, JsonValue)>,
    name: &str,
    decode: F,
    Ghost(decoded): Ghost<spec_fn(Json) -> Result<T::V, Seq<char>>>,
) -> (values: Result<Vec<T>, InternalError>)
    requires
        forall|json: &JsonValue| #[trigger] decode.requires((json,)),
        forall|json: &JsonValue, r: Result<T, InternalError>| #[trigger]
            decode.ensures((json,), r) ==> same_outcome(r, decoded(json.deep_view())),
    ensures
        same_outcome(values, list_field(members.deep_view(), name@, decoded)),
{
    match find_set(members, name) {
        None => {
            let values: Vec<T> = Vec::new();
            assert(values.deep_view() =~= Seq::<T::V>::empty());
            Ok(values)
        },
        Some(json) => match json {
            JsonValue::Array(items) => {
                assert(json.model()->Array_0 =~= items.deep_view());
                decode_all(items, decode, Ghost(decoded))
            },
            _ => Err(invalid_type_error(json, "a sequence")),
        },
    }
}

/// Reads a list of strings.
pub(crate) fn read_strings(members: &Vec<(String, JsonValue)>, name: &str) -> (texts: Result<
    Vec<String>,
    InternalError,
>)
    ensures
        same_outcome(
            texts,
            list_field(members.deep_view(), name@, |json: Json| string_item(json)),
        ),
{
    read_list(members, name, read_string_item, Ghost(|json: Json| string_item(json)))
}

/// Reads a list of objects; `expected` says what kind of objects.
pub(crate) fn read_objects(
    members: &Vec<(String, JsonValue)>,
    name: &str,
    expected: &str,
) -> (objects: Result<Vec<JsonValue>, InternalError>)
    ensures
        same_outcome(
            objects,
            list_field(members.deep_view(), name@, |json: Json| object_item(expected@, json)),
        ),
{
    let decode = |json: &JsonValue| -> (item: Result<JsonValue, InternalError>)
        ensures
            same_outcome(item, object_item(expected@, json.deep_view())),
    {
        read_object_item(expected, json)
    };
    read_list(members, name, decode, Ghost(|json: Json| object_item(expected@, json)))
}

} // verus!
