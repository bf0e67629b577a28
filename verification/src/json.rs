//! JSON values (`serde_json::Value`) and their text.
use serde_json::Error as JsonError;
use serde_json::Value;
use vstd::prelude::*;

verus! {

#[verifier::external_type_specification]
#[verifier::external_body]
pub struct ExValue(serde_json::Value);

#[verifier::external_type_specification]
#[verifier::external_body]
pub struct ExJsonError(JsonError);

/// A number of a JSON value: an unsigned integer, a negative integer, or any
/// other number, known by the bits of its floating-point representation.
pub enum JsonNumber {
    Unsigned(u64),
    Negative(i64),
    Float { bits: u64 },
}

/// What a JSON value says.
pub enum Json {
    Null,
    Bool(bool),
    Number(JsonNumber),
    Text(Seq<char>),
    Array(Seq<Json>),
    Object(Map<Seq<char>, Json>),
}

impl Json {
    /// The member of an object under `key`; other values have no members.
    pub open spec fn member(self, key: Seq<char>) -> Option<Json> {
        match self {
            Json::Object(members) => if members.contains_key(key) {
                Some(members[key])
            } else {
                None
            },
            _ => None,
        }
    }

    /// The value as an unsigned integer.
    pub open spec fn as_u64(self) -> Option<u64> {
        match self {
            Json::Number(JsonNumber::Unsigned(n)) => Some(n),
            _ => None,
        }
    }

    /// Whether the value is nested at most `depth` deep, has no numbers but
    /// integers, and no object with the key that stands for raw text: what is
    /// written of such a value reads back as it is.
    pub open spec fn reads_back(self, depth: nat) -> bool
        decreases depth,
    {
        match self {
            Json::Number(n) => !(n is Float),
            Json::Array(items) => depth > 0 && forall|i: int|
                0 <= i < items.len() ==> (#[trigger] items[i]).reads_back((depth - 1) as nat),
            Json::Object(members) => depth > 0 && !members.contains_key(raw_text_key())
                && forall|key: Seq<char>| #[trigger]
                members.contains_key(key) ==> members[key].reads_back((depth - 1) as nat),
            _ => true,
        }
    }

    /// The members to which another can be added: those of an object, and
    /// none for null.
    pub open spec fn members(self) -> Map<Seq<char>, Json> {
        match self {
            Json::Object(members) => members,
            _ => Map::empty(),
        }
    }
}

/// The key under which `serde_json` takes the text of an object's member for
/// the object itself when it reads one.
pub open spec fn raw_text_key() -> Seq<char> {
    "$serde_json::private::RawValue"@
}

/// What a value says.
pub uninterp spec fn json_of(value: Value) -> Json;

/// What `serde_json::from_str` reads a text as, or the error that it reports.
pub uninterp spec fn parsed_json(text: Seq<char>) -> Result<Json, JsonError>;

/// Whether a text reads as a value.
pub open spec fn reads_as(text: Seq<char>, json: Json) -> bool {
    parsed_json(text) is Ok && parsed_json(text)->Ok_0 == json
}

/// The text that `serde_json::to_string` writes for a value.
pub uninterp spec fn json_text(value: Value) -> Seq<char>;

/// `Value::clone`: the copy says the same.
pub assume_specification[ <Value as Clone>::clone ](value: &Value) -> (copy: Value)
    ensures
        copy == *value,
;

/// Calls `serde_json::from_str::<Value>`: what it reads depends on the text
/// alone.
#[verifier::external_body]
pub(crate) fn parse_json(text: &str) -> (parsed: Result<Value, JsonError>)
    ensures
        match parsed {
            Ok(value) => reads_as(text@, json_of(value)),
            Err(e) => parsed_json(text@) is Err && parsed_json(text@)->Err_0 == e,
        },
{
    serde_json::from_str::<Value>(text)
}

/// Calls `Value::get` with a string key: the member of an object, if it is
/// there.
#[verifier::external_body]
pub(crate) fn json_member<'a>(value: &'a Value, key: &str) -> (member: Option<&'a Value>)
    ensures
        match member {
            Some(m) => json_of(*value).member(key@) == Some(json_of(*m)),
            None => json_of(*value).member(key@) is None,
        },
{
    value.get(key)
}

/// Calls `Value::as_u64`: the reading as an unsigned integer.
#[verifier::external_body]
pub(crate) fn json_as_u64(value: &Value) -> (number: Option<u64>)
    ensures
        number == json_of(*value).as_u64(),
{
    value.as_u64()
}

/// Builds `Value::Null`.
#[verifier::external_body]
pub(crate) fn json_null() -> (value: Value)
    ensures
        json_of(value) == Json::Null,
{
    Value::Null
}

/// Calls `Value::from(u64)`: the number itself.
#[verifier::external_body]
pub(crate) fn json_number(number: u64) -> (value: Value)
    ensures
        json_of(value) == Json::Number(JsonNumber::Unsigned(number)),
{
    Value::from(number)
}

/// Assigns through `Value`'s `IndexMut` with a string key: the member is
/// replaced or added, and null becomes an object first. On any other kind of
/// value the assignment panics.
#[verifier::external_body]
pub(crate) fn json_set_member(value: &mut Value, key: &str, member: Value)
    requires
        json_of(*old(value)) is Object || json_of(*old(value)) is Null,
    ensures
        json_of(*final(value)) == Json::Object(
            json_of(*old(value)).members().insert(key@, json_of(member)),
        ),
{
    value[key] = member;
}

/// How deeply `serde_json` lets a text be nested that it reads.
pub const MAX_JSON_DEPTH: u8 = 127;

/// Calls `serde_json::to_string` on a value, which always succeeds: a value
/// has string keys and finite numbers only, and the text is built in memory.
/// `serde_json::from_str` reads the text of a value back as the same value,
/// unless it is nested too deeply, or holds a number that is no integer, whose
/// text may be read as a number close by, or an object with the key that stands
/// for raw text.
#[verifier::external_body]
pub(crate) fn write_json(value: &Value) -> (text: Result<String, JsonError>)
    ensures
        text is Ok,
        text->Ok_0@ == json_text(*value),
        json_of(*value).reads_back(MAX_JSON_DEPTH as nat) ==> reads_as(
            text->Ok_0@,
            json_of(*value),
        ),
{
    serde_json::to_string(value)
}

/// The object with the one member `key: number`.
pub open spec fn number_object(key: Seq<char>, number: u64) -> Json {
    Json::Object(Map::empty().insert(key, Json::Number(JsonNumber::Unsigned(number))))
}

/// The envelope of a gateway message: its opcode under `op`, its data under
/// `d`.
pub open spec fn envelope(op: u8, data: Json) -> Json {
    Json::Object(
        Map::empty().insert("op"@, Json::Number(JsonNumber::Unsigned(op as u64))).insert(
            "d"@,
            data,
        ),
    )
}

/// Builds the object with the one member `key: number`.
pub fn object_with_number(key: &str, number: u64) -> (value: Value)
    ensures
        json_of(value) == number_object(key@, number),
{
    let mut value = json_null();
    json_set_member(&mut value, key, json_number(number));
    value
}

/// Builds the envelope of a gateway message.
pub fn message_envelope(op: u8, data: &Value) -> (value: Value)
    ensures
        json_of(value) == envelope(op, json_of(*data)),
{
    let mut value = json_null();
    json_set_member(&mut value, "op", json_number(op as u64));
    json_set_member(&mut value, "d", data.clone());
    value
}

/// An envelope can be read back where its data can.
pub proof fn law_envelope_reads_back(op: u8, data: Json, depth: nat)
    requires
        data.reads_back(depth),
    ensures
        envelope(op, data).reads_back(depth + 1),
{
    law_envelope_members(op, data);
    reveal_strlit("op");
    reveal_strlit("d");
    reveal_strlit("$serde_json::private::RawValue");
    assert(raw_text_key().len() != "op"@.len() && raw_text_key().len() != "d"@.len());
    assert(Json::Number(JsonNumber::Unsigned(op as u64)).reads_back(depth));
}

/// An envelope gives back its opcode and its data.
pub proof fn law_envelope_members(op: u8, data: Json)
    ensures
        envelope(op, data).member("op"@) == Some(
            Json::Number(JsonNumber::Unsigned(op as u64)),
        ),
        envelope(op, data).member("d"@) == Some(data),
{
    reveal_strlit("op");
    reveal_strlit("d");
    assert("op"@.len() != "d"@.len());
}

/// An envelope holds nothing but its opcode and its data.
pub proof fn law_envelope_keys(op: u8, data: Json, key: Seq<char>)
    ensures
        envelope(op, data).member(key) is Some <==> key == "op"@ || key == "d"@,
{
}

/// An object with one member holds the number under its key, and nothing else.
pub proof fn law_number_object_members(key: Seq<char>, number: u64, other: Seq<char>)
    ensures
        number_object(key, number).member(key) is Some,
        number_object(key, number).member(key)->0.as_u64() == Some(number),
        other != key ==> number_object(key, number).member(other) is None,
{
}

/// Only an object has members, and only an unsigned integer is read as one.
pub proof fn law_members_and_numbers(json: Json, key: Seq<char>, n: u64)
    ensures
        json.member(key) is Some <==> json is Object && json->Object_0.contains_key(key),
        json.member(key) matches Some(member) ==> json->Object_0[key] == member,
        json.as_u64() == Some(n) <==> json == Json::Number(JsonNumber::Unsigned(n)),
{
}

} // verus!
