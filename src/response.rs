//! Decoding of JSON-RPC answers: the result of a success, or the typed error
//! that a server reported.

use crate::error::{ClientError, RpcResponseErrorData};
use serde_json::Value;
use vstd::prelude::*;
use vstd::string::StringExecFns;

verus! {

/// The code of a send whose preflight simulation failed.
pub const JSON_RPC_SERVER_ERROR_SEND_TRANSACTION_PREFLIGHT_FAILURE: i64 = -32002;

/// The code of a node that is unhealthy.
pub const JSON_RPC_SERVER_ERROR_NODE_UNHEALTHY: i64 = -32005;

/// What a member of a JSON object holds, as far as a decoder of one type
/// can tell.
#[derive(Debug)]
pub enum FieldRead<T> {
    Missing,
    Null,
    Valid(T),
    /// Present, but not of the type asked for.
    Invalid,
}

/// The `data` member of an error object.
#[derive(Debug)]
pub enum DataRead {
    /// Absent, or not an object.
    NotObject,
    /// An object, and what its `numSlotsBehind` member holds as a `u64`.
    Object { value: Value, num_slots_behind: FieldRead<u64> },
}

/// What the decoding logic reads of an answer's `error` member.
#[derive(Debug)]
pub struct ErrorObject {
    /// The member as JSON text.
    pub raw: String,
    pub is_object: bool,
    pub code: FieldRead<i64>,
    pub message: FieldRead<String>,
    pub data: DataRead,
}

/// How the data of an error with this code is decoded.
#[derive(Debug, Clone, Copy, PartialEq, Eq, Structural)]
pub enum DataKind {
    PreflightFailure,
    NodeUnhealthy,
    NoData,
}

pub open spec fn data_kind_of(code: i64) -> DataKind {
    if code == JSON_RPC_SERVER_ERROR_SEND_TRANSACTION_PREFLIGHT_FAILURE {
        DataKind::PreflightFailure
    } else if code == JSON_RPC_SERVER_ERROR_NODE_UNHEALTHY {
        DataKind::NodeUnhealthy
    } else {
        DataKind::NoData
    }
}

/// Selects, by the error's code, how its data is decoded.
pub fn data_kind(code: i64) -> (r: DataKind)
    ensures
        r == data_kind_of(code),
{
    if code == JSON_RPC_SERVER_ERROR_SEND_TRANSACTION_PREFLIGHT_FAILURE {
        DataKind::PreflightFailure
    } else if code == JSON_RPC_SERVER_ERROR_NODE_UNHEALTHY {
        DataKind::NodeUnhealthy
    } else {
        DataKind::NoData
    }
}

/// Whether the error member decodes as `{code, message}`.
pub open spec fn is_well_formed(e: ErrorObject) -> bool {
    e.is_object && e.code is Valid && e.message is Valid
}

/// Why an error member does not decode as `{code, message}`, given whether
/// it is an object, what its `code` holds, and whether `message` is missing.
pub open spec fn failure_of(is_object: bool, code: FieldRead<i64>, message_missing: bool) -> Seq<
    char,
> {
    if !is_object {
        "invalid type: expected an object with `code` and `message`"@
    } else if code is Missing {
        "missing field `code`"@
    } else if !(code is Valid) {
        "invalid type: field `code` is not an i64"@
    } else if message_missing {
        "missing field `message`"@
    } else {
        "invalid type: field `message` is not a string"@
    }
}

/// Why the error member does not decode as `{code, message}`.
pub open spec fn decode_failure(e: ErrorObject) -> Seq<char> {
    failure_of(e.is_object, e.code, e.message is Missing)
}

/// The text of the error for a member that does not decode.
pub open spec fn malformed_text(raw: Seq<char>, failure: Seq<char>) -> Seq<char> {
    "Failed to deserialize RPC error response: "@ + raw + " ["@ + failure + "]"@
}

/// The data that an error with `code` carries, given what its `data`
/// member holds.
pub open spec fn decoded_data(code: i64, data: DataRead) -> RpcResponseErrorData {
    match data_kind_of(code) {
        DataKind::PreflightFailure => match data {
            DataRead::Object { value, .. } => RpcResponseErrorData::SendTransactionPreflightFailure(
                value,
            ),
            DataRead::NotObject => RpcResponseErrorData::Empty,
        },
        DataKind::NodeUnhealthy => match data {
            DataRead::Object { num_slots_behind, .. } => match num_slots_behind {
                FieldRead::Missing => RpcResponseErrorData::NodeUnhealthy { num_slots_behind: None },
                FieldRead::Null => RpcResponseErrorData::NodeUnhealthy { num_slots_behind: None },
                FieldRead::Valid(n) => RpcResponseErrorData::NodeUnhealthy {
                    num_slots_behind: Some(n),
                },
                FieldRead::Invalid => RpcResponseErrorData::Empty,
            },
            DataRead::NotObject => RpcResponseErrorData::Empty,
        },
        DataKind::NoData => RpcResponseErrorData::Empty,
    }
}

/// Decodes the data of an error with `code`; data of the wrong shape
/// becomes `Empty`.
pub fn decode_data(code: i64, data: DataRead) -> (r: RpcResponseErrorData)
    ensures
        r == decoded_data(code, data),
{
    match data_kind(code) {
        DataKind::PreflightFailure => match data {
            DataRead::Object { value, .. } => RpcResponseErrorData::SendTransactionPreflightFailure(
                value,
            ),
            DataRead::NotObject => RpcResponseErrorData::Empty,
        },
        DataKind::NodeUnhealthy => match data {
            DataRead::Object { num_slots_behind, .. } => match num_slots_behind {
                FieldRead::Missing => RpcResponseErrorData::NodeUnhealthy { num_slots_behind: None },
                FieldRead::Null => RpcResponseErrorData::NodeUnhealthy { num_slots_behind: None },
                FieldRead::Valid(n) => RpcResponseErrorData::NodeUnhealthy {
                    num_slots_behind: Some(n),
                },
                FieldRead::Invalid => RpcResponseErrorData::Empty,
            },
            DataRead::NotObject => RpcResponseErrorData::Empty,
        },
        DataKind::NoData => RpcResponseErrorData::Empty,
    }
}

fn failure_text(e: &ErrorObject) -> (r: String)
    ensures
        r@ == decode_failure(*e),
{
    if !e.is_object {
        String::from_str("invalid type: expected an object with `code` and `message`")
    } else if matches!(e.code, FieldRead::Missing) {
        String::from_str("missing field `code`")
    } else if !matches!(e.code, FieldRead::Valid(_)) {
        String::from_str("invalid type: field `code` is not an i64")
    } else if matches!(e.message, FieldRead::Missing) {
        String::from_str("missing field `message`")
    } else {
        String::from_str("invalid type: field `message` is not a string")
    }
}

/// The error that an answer's error member stands for: the server's error
/// with its code, message and decoded data when the member decodes as
/// `{code, message}`, and otherwise a request error that quotes the member
/// and says why it does not decode.
pub fn rpc_error(e: ErrorObject) -> (r: ClientError)
    ensures
        is_well_formed(e) ==> r == (ClientError::RpcResponseError {
            code: e.code->Valid_0,
            message: e.message->Valid_0,
            data: decoded_data(e.code->Valid_0, e.data),
        }),
        !is_well_formed(e) ==> r is RpcRequestError && r->RpcRequestError_0@ == malformed_text(
            e.raw@,
            decode_failure(e),
        ),
{
    let failure = failure_text(&e);
    match (e.code, e.message) {
        (FieldRead::Valid(code), FieldRead::Valid(message)) if e.is_object => {
            ClientError::RpcResponseError { code, message, data: decode_data(code, e.data) }
        },
        _ => {
            let mut text = String::from_str("Failed to deserialize RPC error response: ");
            text.append(e.raw.as_str());
            text.append(" [");
            text.append(failure.as_str());
            text.append("]");
            ClientError::RpcRequestError(text)
        },
    }
}

/// The JSON value that a body holds, if it is JSON.
pub uninterp spec fn parsed_json(body: Seq<u8>) -> Option<Value>;

/// The member `key` of a JSON object; `None` for a missing member or a
/// value that is not an object.
pub uninterp spec fn json_member(v: Value, key: Seq<char>) -> Option<Value>;

pub uninterp spec fn json_is_object(v: Value) -> bool;

pub uninterp spec fn json_is_null(v: Value) -> bool;

/// The integer that a JSON number holds, if it fits in `i64`.
pub uninterp spec fn json_as_i64(v: Value) -> Option<i64>;

/// The integer that a JSON number holds, if it fits in `u64`.
pub uninterp spec fn json_as_u64(v: Value) -> Option<u64>;

/// The text of a JSON string.
pub uninterp spec fn json_as_str(v: Value) -> Option<Seq<char>>;

/// The compact JSON text of a value.
pub uninterp spec fn json_text_of(v: Value) -> Seq<char>;

/// Relies on `serde_json::from_slice`: parses the whole body as one JSON
/// value, or reports why it is not JSON; the outcome depends on the bytes
/// alone.
#[verifier::external_body]
fn parse_json(body: &[u8]) -> (r: Result<Value, serde_json::Error>)
    ensures
        r is Ok <==> parsed_json(body@) is Some,
        r is Ok ==> r->Ok_0 == parsed_json(body@)->Some_0,
{
    serde_json::from_slice(body)
}

/// Relies on `serde_json::Value::get`: the member `key` of an object, and
/// `None` for a missing member or a value that is not an object.
#[verifier::external_body]
fn member(v: &Value, key: &str) -> (r: Option<Value>)
    ensures
        r == json_member(*v, key@),
{
    v.get(key).cloned()
}

/// Relies on `serde_json::Value::get_mut` and `Value::take`: moves the
/// member `key` out, and gives null where there is no such member (as
/// `get_mut` finds none exactly where `get` finds none).
#[verifier::external_body]
fn take_member(v: &mut Value, key: &str) -> (r: Value)
    ensures
        json_member(*old(v), key@) is Some ==> r == json_member(*old(v), key@)->Some_0,
        json_member(*old(v), key@) is None ==> json_is_null(r),
{
    v.get_mut(key).map(Value::take).unwrap_or(Value::Null)
}

/// Relies on `serde_json::Value::is_object`.
#[verifier::external_body]
fn is_object(v: &Value) -> (r: bool)
    ensures
        r == json_is_object(*v),
{
    v.is_object()
}

/// Relies on `serde_json::Value::is_null`.
#[verifier::external_body]
fn is_null(v: &Value) -> (r: bool)
    ensures
        r == json_is_null(*v),
{
    v.is_null()
}

/// Relies on `serde_json::Value::as_i64`: an integer that fits in `i64`.
#[verifier::external_body]
fn as_i64(v: &Value) -> (r: Option<i64>)
    ensures
        r == json_as_i64(*v),
{
    v.as_i64()
}

/// Relies on `serde_json::Value::as_u64`: an integer that fits in `u64`.
#[verifier::external_body]
fn as_u64(v: &Value) -> (r: Option<u64>)
    ensures
        r == json_as_u64(*v),
{
    v.as_u64()
}

/// Relies on `serde_json::Value::as_str`: the text of a JSON string.
#[verifier::external_body]
fn as_string(v: &Value) -> (r: Option<String>)
    ensures
        r is Some <==> json_as_str(*v) is Some,
        r is Some ==> r->Some_0@ == json_as_str(*v)->Some_0,
{
    v.as_str().map(String::from)
}

/// Relies on the `Display` impl of `serde_json::Value`: compact JSON text.
#[verifier::external_body]
fn json_text(v: &Value) -> (r: String)
    ensures
        r@ == json_text_of(*v),
{
    v.to_string()
}

/// What the member `key` of `obj` holds, read as an `i64`.
pub open spec fn field_i64(obj: Value, key: Seq<char>) -> FieldRead<i64> {
    match json_member(obj, key) {
        None => FieldRead::Missing,
        Some(f) => if json_is_null(f) {
            FieldRead::Null
        } else {
            match json_as_i64(f) {
                Some(n) => FieldRead::Valid(n),
                None => FieldRead::Invalid,
            }
        },
    }
}

/// What the member `key` of `obj` holds, read as a `u64`.
pub open spec fn field_u64(obj: Value, key: Seq<char>) -> FieldRead<u64> {
    match json_member(obj, key) {
        None => FieldRead::Missing,
        Some(f) => if json_is_null(f) {
            FieldRead::Null
        } else {
            match json_as_u64(f) {
                Some(n) => FieldRead::Valid(n),
                None => FieldRead::Invalid,
            }
        },
    }
}

/// What the member `key` of `obj` holds, read as a string.
pub open spec fn field_str(obj: Value, key: Seq<char>) -> FieldRead<Seq<char>> {
    match json_member(obj, key) {
        None => FieldRead::Missing,
        Some(f) => if json_is_null(f) {
            FieldRead::Null
        } else {
            match json_as_str(f) {
                Some(s) => FieldRead::Valid(s),
                None => FieldRead::Invalid,
            }
        },
    }
}

pub open spec fn string_read_view(r: FieldRead<String>) -> FieldRead<Seq<char>> {
    match r {
        FieldRead::Missing => FieldRead::Missing,
        FieldRead::Null => FieldRead::Null,
        FieldRead::Valid(s) => FieldRead::Valid(s@),
        FieldRead::Invalid => FieldRead::Invalid,
    }
}

/// What the `data` member of an error member holds.
pub open spec fn data_of(err: Value) -> DataRead {
    match json_member(err, "data"@) {
        Some(d) => if json_is_object(d) {
            DataRead::Object { value: d, num_slots_behind: field_u64(d, "numSlotsBehind"@) }
        } else {
            DataRead::NotObject
        },
        None => DataRead::NotObject,
    }
}

fn read_i64(obj: &Value, key: &str) -> (r: FieldRead<i64>)
    ensures
        r == field_i64(*obj, key@),
{
    match member(obj, key) {
        None => FieldRead::Missing,
        Some(f) => if is_null(&f) {
            FieldRead::Null
        } else {
            match as_i64(&f) {
                Some(n) => FieldRead::Valid(n),
                None => FieldRead::Invalid,
            }
        },
    }
}

fn read_u64(obj: &Value, key: &str) -> (r: FieldRead<u64>)
    ensures
        r == field_u64(*obj, key@),
{
    match member(obj, key) {
        None => FieldRead::Missing,
        Some(f) => if is_null(&f) {
            FieldRead::Null
        } else {
            match as_u64(&f) {
                Some(n) => FieldRead::Valid(n),
                None => FieldRead::Invalid,
            }
        },
    }
}

fn read_string(obj: &Value, key: &str) -> (r: FieldRead<String>)
    ensures
        string_read_view(r) == field_str(*obj, key@),
{
    match member(obj, key) {
        None => FieldRead::Missing,
        Some(f) => if is_null(&f) {
            FieldRead::Null
        } else {
            match as_string(&f) {
                Some(s) => FieldRead::Valid(s),
                None => FieldRead::Invalid,
            }
        },
    }
}

/// Reads what the decoding logic needs of an error member: its JSON text,
/// whether it is an object, its `code` as an `i64`, its `message` as a
/// string, and its `data`.
pub fn read_error_object(err: &Value) -> (r: ErrorObject)
    ensures
        r.raw@ == json_text_of(*err),
        r.is_object == json_is_object(*err),
        r.code == field_i64(*err, "code"@),
        string_read_view(r.message) == field_str(*err, "message"@),
        r.data == data_of(*err),
{
    let data = match member(err, "data") {
        Some(d) => if is_object(&d) {
            let num_slots_behind = read_u64(&d, "numSlotsBehind");
            DataRead::Object { value: d, num_slots_behind }
        } else {
            DataRead::NotObject
        },
        None => DataRead::NotObject,
    };
    ErrorObject {
        raw: json_text(err),
        is_object: is_object(err),
        code: read_i64(err, "code"),
        message: read_string(err, "message"),
        data,
    }
}

/// Whether an answer carries an error: an `error` member that is not null.
pub open spec fn has_error(j: Value) -> bool {
    json_member(j, "error"@) is Some && !json_is_null(json_member(j, "error"@)->Some_0)
}

/// Whether `r` is the error that the error member `err` stands for: the
/// server's error with its code, message and decoded data when `err` is an
/// object with an `i64` code and a string message; otherwise a request
/// error that quotes `err` and says why it does not decode.
pub open spec fn is_error_for(r: ClientError, err: Value) -> bool {
    let code = field_i64(err, "code"@);
    let message = field_str(err, "message"@);
    if json_is_object(err) && code is Valid && message is Valid {
        &&& r is RpcResponseError
        &&& r->RpcResponseError_code == code->Valid_0
        &&& r->RpcResponseError_message@ == message->Valid_0
        &&& r->RpcResponseError_data == decoded_data(code->Valid_0, data_of(err))
    } else {
        &&& r is RpcRequestError
        &&& r->RpcRequestError_0@ == malformed_text(
            json_text_of(err),
            failure_of(json_is_object(err), code, message is Missing),
        )
    }
}

/// Decodes the body of an answer that came with a success status: a body
/// that is not JSON is a JSON error; an `error` member that is present and
/// not null becomes the error it stands for; otherwise the `result` member
/// is the call's value, and null where it is missing.
pub fn decode_response(body: &[u8]) -> (r: Result<Value, ClientError>)
    ensures
        parsed_json(body@) is None ==> r is Err && r->Err_0 is Json,
        parsed_json(body@) is Some && has_error(parsed_json(body@)->Some_0) ==> r is Err
            && is_error_for(r->Err_0, json_member(parsed_json(body@)->Some_0, "error"@)->Some_0),
        parsed_json(body@) is Some && !has_error(parsed_json(body@)->Some_0) ==> r is Ok && (
        json_member(parsed_json(body@)->Some_0, "result"@) is Some ==> r->Ok_0 == json_member(
            parsed_json(body@)->Some_0,
            "result"@,
        )->Some_0) && (json_member(parsed_json(body@)->Some_0, "result"@) is None
            ==> json_is_null(r->Ok_0)),
{
    let mut json = match parse_json(body) {
        Ok(v) => v,
        Err(e) => return Err(ClientError::Json(e)),
    };
    match member(&json, "error") {
        Some(err) => if !is_null(&err) {
            return Err(rpc_error(read_error_object(&err)));
        },
        None => {},
    }
    Ok(take_member(&mut json, "result"))
}

} // verus!
