//! JSON values as the library reads them.

use vstd::prelude::*;

verus! {

/// A JSON value as a mathematical object.
pub enum Json {
    Null,
    Bool(bool),
    /// A number: how it prints, whether it is held as a floating point number, and its value where
    /// it is held as an integer that an `i64` can hold.
    Number { text: Seq<char>, is_float: bool, integer: Option<i64> },
    Str(Seq<char>),
    Array(Seq<Json>),
    /// The members of an object, by name.
    Object(Seq<(Seq<char>, Json)>),
}

/// A JSON number: how it prints, whether `serde_json` holds it as a floating point number, and its
/// value where `serde_json` holds it as an integer that an `i64` can hold.
#[derive(Debug)]
pub struct JsonNumber {
    pub text: String,
    pub is_float: bool,
    pub integer: Option<i64>,
}

/// A JSON value.
#[derive(Debug)]
pub enum JsonValue {
    Null,
    Bool(bool),
    Number(JsonNumber),
    String(String),
    Array(Vec<JsonValue>),
    Object(Vec<(String, JsonValue)>),
}

impl JsonValue {
    /// The mathematical value of this JSON value.
    pub open spec fn model(self) -> Json
        decreases self,
    {
        match self {
            JsonValue::Null => Json::Null,
            JsonValue::Bool(b) => Json::Bool(b),
            JsonValue::Number(n) => Json::Number {
                text: n.text@,
                is_float: n.is_float,
                integer: n.integer,
            },
            JsonValue::String(s) => Json::Str(s@),
            JsonValue::Array(items) => Json::Array(
                Seq::new(
                    items@.len(),
                    |i: int|
                        if 0 <= i < items@.len() {
                            items@[i].model()
                        } else {
                            Json::Null
                        },
                ),
            ),
            JsonValue::Object(members) => Json::Object(
                Seq::new(
                    members@.len(),
                    |i: int|
                        if 0 <= i < members@.len() {
                            (members@[i].0@, members@[i].1.model())
                        } else {
                            (Seq::empty(), Json::Null)
                        },
                ),
            ),
        }
    }
}

impl DeepView for JsonValue {
    type V = Json;

    open spec fn deep_view(&self) -> Json {
        self.model()
    }
}

impl Clone for JsonNumber {
    fn clone(&self) -> (copy: JsonNumber)
        ensures
            copy == *self,
    {
        JsonNumber {
            text: self.text.clone(),
            is_float: self.is_float,
            integer: self.integer,
        }
    }
}

impl Clone for JsonValue {
    fn clone(&self) -> (copy: JsonValue)
        ensures
            copy.deep_view() == self.deep_view(),
        decreases self.model(),
    {
        match self {
            JsonValue::Null => JsonValue::Null,
            JsonValue::Bool(b) => JsonValue::Bool(*b),
            JsonValue::Number(n) => JsonValue::Number(n.clone()),
            JsonValue::String(s) => JsonValue::String(s.clone()),
            JsonValue::Array(items) => {
                let mut out: Vec<JsonValue> = Vec::new();
                for i in 0..items.len()
                    invariant
                        *self == JsonValue::Array(*items),
                        out@.len() == i,
                        forall|k: int| 0 <= k < i ==> (#[trigger] out@[k]).model() == items@[k].model(),
                {
                    assert(self.model()->Array_0[i as int] == items@[i as int].model());
                    out.push(items[i].clone());
                }
                let copy = JsonValue::Array(out);
                assert(copy.model()->Array_0 =~= self.model()->Array_0);
                copy
            },
            JsonValue::Object(members) => {
                let mut out: Vec<(String, JsonValue)> = Vec::new();
                for i in 0..members.len()
                    invariant
                        *self == JsonValue::Object(*members),
                        out@.len() == i,
                        forall|k: int| #![trigger out@[k]]
                            0 <= k < i ==> out@[k].0@ == members@[k].0@ && out@[k].1.model()
                                == members@[k].1.model(),
                {
                    assert(self.model()->Object_0[i as int].1 == members@[i as int].1.model());
                    out.push((members[i].0.clone(), members[i].1.clone()));
                }
                let copy = JsonValue::Object(out);
                assert(copy.model()->Object_0 =~= self.model()->Object_0);
                copy
            },
        }
    }
}

/// The name of the type of a JSON value.
pub open spec fn kind_name(json: Json) -> Seq<char> {
    match json {
        Json::Null => "null"@,
        Json::Bool(_) => "bool"@,
        Json::Number { .. } => "number"@,
        Json::Str(_) => "string"@,
        Json::Array(_) => "array"@,
        Json::Object(_) => "object"@,
    }
}

/// Names the type of a JSON value.
pub fn value_type_name(v: &JsonValue) -> (name: &'static str)
    ensures
        name@ == kind_name(v.deep_view()),
{
    match v {
        JsonValue::Null => "null",
        JsonValue::Bool(_) => "bool",
        JsonValue::Number(_) => "number",
        JsonValue::String(_) => "string",
        JsonValue::Array(_) => "array",
        JsonValue::Object(_) => "object",
    }
}

/// `serde_json::Value`, a JSON value of the `serde_json` crate.
#[verifier::external_type_specification]
#[verifier::external_body]
pub struct ExSerdeJsonValue(serde_json::Value);

/// What a `serde_json::Value` holds. Members of an object come in the order in which
/// `serde_json::Map` iterates over them.
pub uninterp spec fn json_of(value: serde_json::Value) -> Json;

/// The outermost layer of a `serde_json::Value`.
pub enum JsonLayer<'a> {
    Null,
    Bool(bool),
    Number(JsonNumber),
    String(&'a String),
    Array(&'a Vec<serde_json::Value>),
    Object(Vec<(&'a String, &'a serde_json::Value)>),
}

impl<'a> JsonLayer<'a> {
    /// The JSON value whose outermost layer this is.
    pub open spec fn json(self) -> Json {
        match self {
            JsonLayer::Null => Json::Null,
            JsonLayer::Bool(b) => Json::Bool(b),
            JsonLayer::Number(n) => Json::Number {
                text: n.text@,
                is_float: n.is_float,
                integer: n.integer,
            },
            JsonLayer::String(s) => Json::Str(s@),
            JsonLayer::Array(items) => Json::Array(
                Seq::new(items@.len(), |i: int| json_of(items@[i])),
            ),
            JsonLayer::Object(members) => Json::Object(
                Seq::new(members@.len(), |i: int| (members@[i].0@, json_of(*members@[i].1))),
            ),
        }
    }
}

/// Tells the variants of `serde_json::Value` apart, one layer deep: a layer holds what its value
/// holds. The elements of an array and the members of an object (`serde_json::Map::iter`) stay
/// `serde_json` values. A number is taken by its `Display` text; by `Number::is_f64`, whether it is
/// held as a floating point number; and by `Number::as_i64`, its value where it is held as an integer
/// that an `i64` can hold, else `None`.
#[verifier::external_body]
fn json_layer(value: &serde_json::Value) -> (layer: JsonLayer<'_>)
    ensures
        layer.json() == json_of(*value),
{
    match value {
        serde_json::Value::Null => JsonLayer::Null,
        serde_json::Value::Bool(b) => JsonLayer::Bool(*b),
        serde_json::Value::Number(n) => JsonLayer::Number(
            JsonNumber { text: n.to_string(), is_float: n.is_f64(), integer: n.as_i64() },
        ),
        serde_json::Value::String(s) => JsonLayer::String(s),
        serde_json::Value::Array(items) => JsonLayer::Array(items),
        serde_json::Value::Object(members) => JsonLayer::Object(members.iter().collect()),
    }
}

impl JsonValue {
    /// Reads a whole `serde_json::Value`.
    pub fn from_serde(value: &serde_json::Value) -> (json: JsonValue)
        ensures
            json.model() == json_of(*value),
        decreases json_of(*value),
    {
        match json_layer(value) {
            JsonLayer::Null => JsonValue::Null,
            JsonLayer::Bool(b) => JsonValue::Bool(b),
            JsonLayer::Number(n) => JsonValue::Number(n),
            JsonLayer::String(s) => JsonValue::String(s.clone()),
            JsonLayer::Array(items) => {
                let mut out: Vec<JsonValue> = Vec::new();
                for i in 0..items.len()
                    invariant
                        json_of(*value) == JsonLayer::Array(items).json(),
                        out@.len() == i,
                        forall|k: int| 0 <= k < i ==> (#[trigger] out@[k]).model() == json_of(items@[k]),
                {
                    assert(json_of(*value)->Array_0[i as int] == json_of(items@[i as int]));
                    out.push(JsonValue::from_serde(&items[i]));
                }
                let json = JsonValue::Array(out);
                assert(json.model()->Array_0 =~= json_of(*value)->Array_0);
                json
            },
            JsonLayer::Object(members) => {
                let mut out: Vec<(String, JsonValue)> = Vec::new();
                for i in 0..members.len()
                    invariant
                        json_of(*value) == JsonLayer::Object(members).json(),
                        out@.len() == i,
                        forall|k: int| #![trigger out@[k]]
                            0 <= k < i ==> out@[k].0@ == members@[k].0@ && out@[k].1.model() == json_of(
                                *members@[k].1,
                            ),
                {
                    assert(json_of(*value)->Object_0[i as int].1 == json_of(*members@[i as int].1));
                    out.push((members[i].0.clone(), JsonValue::from_serde(members[i].1)));
                }
                let json = JsonValue::Object(out);
                assert(json.model()->Object_0 =~= json_of(*value)->Object_0);
                json
            },
        }
    }
}

/// The six types of JSON values have six different names.
pub proof fn law_kind_names_differ(a: Json, b: Json)
    requires
        kind_name(a) == kind_name(b),
    ensures
        a is Null <==> b is Null,
        a is Bool <==> b is Bool,
        a is Number <==> b is Number,
        a is Str <==> b is Str,
        a is Array <==> b is Array,
        a is Object <==> b is Object,
{
    reveal_strlit("null");
    reveal_strlit("bool");
    reveal_strlit("number");
    reveal_strlit("string");
    reveal_strlit("array");
    reveal_strlit("object");
    assert("null"@[0] == 'n' && "null"@.len() == 4);
    assert("bool"@[0] == 'b' && "bool"@.len() == 4);
    assert("number"@[0] == 'n' && "number"@.len() == 6);
    assert("string"@[0] == 's' && "string"@.len() == 6);
    assert("array"@.len() == 5);
    assert("object"@[0] == 'o' && "object"@.len() == 6);
}

} // verus!
