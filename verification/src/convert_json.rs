//! JSON: text and bytes to values, values to compact or pretty text.

use crate::error::{Cause, Error};
use crate::sink::append_text;
use crate::unify::{io_outcome, is_io_failure, is_json_failure, json_outcome};
use serde::de::DeserializeOwned;
use serde::{Deserialize, Serialize};
use serde_json::Error as JsonError;
use std::io::Error as IoError;
use vstd::prelude::*;
use vstd::utf8::encode_utf8;

verus! {

/// Calls `serde_json::from_str`. Nothing is claimed of what it returns: that
/// is decided by the JSON codec and by how `T` deserializes.
#[verifier::external_body]
fn decode_str<'a, T: Deserialize<'a>>(json: &'a str) -> (outcome: Result<T, JsonError>) {
    serde_json::from_str(json)
}

/// Calls `serde_json::from_slice`. Nothing is claimed of what it returns: that
/// is decided by the JSON codec and by how `T` deserializes.
#[verifier::external_body]
fn decode_slice<'a, T: Deserialize<'a>>(json: &'a [u8]) -> (outcome: Result<T, JsonError>) {
    serde_json::from_slice(json)
}

/// Calls `serde_json::to_string`. Nothing is claimed of what it returns: that
/// is decided by the JSON codec and by how `T` serializes.
#[verifier::external_body]
fn encode<T: ?Sized + Serialize>(value: &T) -> (outcome: Result<String, JsonError>) {
    serde_json::to_string(value)
}

/// Calls `serde_json::to_string_pretty`. Nothing is claimed of what it
/// returns: that is decided by the JSON codec and by how `T` serializes.
#[verifier::external_body]
fn encode_pretty<T: ?Sized + Serialize>(value: &T) -> (outcome: Result<String, JsonError>) {
    serde_json::to_string_pretty(value)
}

/// Converts from the JSON string to a value of `T` type.
///
/// Every failure is the codec's own, of kind `Invalid`.
pub fn from_json_str<'a, T: Deserialize<'a>>(json: &'a str) -> (r: Result<T, Error>)
    ensures
        r matches Err(e) ==> is_json_failure(e),
{
    json_outcome(decode_str(json))
}

/// Converts from the JSON bytes to a value of `T` type.
///
/// Every failure is the codec's own, of kind `Invalid`: the codec also
/// judges whether the bytes are text.
pub fn from_json_slice<'a, T: Deserialize<'a>>(json: &'a [u8]) -> (r: Result<T, Error>)
    ensures
        r matches Err(e) ==> is_json_failure(e),
{
    json_outcome(decode_slice(json))
}

/// Converts what a reader gave to a value of `T` type: `read` is the outcome
/// of reading the source to its end.
///
/// A failed read is of kind `Other` and keeps the I/O failure as its cause; on
/// a completed read every failure is the codec's own, of kind `Invalid`.
pub fn from_json_reader<T: DeserializeOwned>(read: Result<Vec<u8>, IoError>) -> (r: Result<T, Error>)
    ensures
        read matches Err(f) ==> r == Err::<T, Error>(Error::caused_by(Cause::Io(f))),
        read is Err ==> (r matches Err(e) && is_io_failure(e)),
        read is Ok ==> (r matches Err(e) ==> is_json_failure(e)),
{
    match io_outcome(read) {
        Ok(bytes) => from_json_slice(bytes.as_slice()),
        Err(e) => Err(e),
    }
}

/// Converts the value to a JSON string.
///
/// Every failure is the codec's own, of kind `Invalid`.
pub fn to_json_string<T: ?Sized + Serialize>(value: &T) -> (r: Result<String, Error>)
    ensures
        r matches Err(e) ==> is_json_failure(e),
{
    json_outcome(encode(value))
}

/// Converts the value to a pretty printed JSON string.
///
/// Every failure is the codec's own, of kind `Invalid`.
pub fn to_json_string_pretty<T: ?Sized + Serialize>(value: &T) -> (r: Result<String, Error>)
    ensures
        r matches Err(e) ==> is_json_failure(e),
{
    json_outcome(encode_pretty(value))
}

/// Converts the value to a JSON string and appends its bytes to `writer`.
///
/// The value is encoded first and written whole: on failure `writer` is left
/// as it was, on success it grew by the UTF-8 encoding of some text.
pub fn to_json_writer<T: ?Sized + Serialize>(value: &T, writer: &mut Vec<u8>) -> (r: Result<(), Error>)
    ensures
        r matches Err(e) ==> is_json_failure(e) && final(writer)@ == old(writer)@,
        r is Ok ==> exists|text: Seq<char>| final(writer)@ == old(writer)@ + encode_utf8(text),
{
    append_text(to_json_string(value), writer)
}

/// Converts the value to a pretty printed JSON string and appends its bytes
/// to `writer`.
///
/// The value is encoded first and written whole: on failure `writer` is left
/// as it was, on success it grew by the UTF-8 encoding of some text.
pub fn to_json_writer_pretty<T: ?Sized + Serialize>(
    value: &T,
    writer: &mut Vec<u8>,
) -> (r: Result<(), Error>)
    ensures
        r matches Err(e) ==> is_json_failure(e) && final(writer)@ == old(writer)@,
        r is Ok ==> exists|text: Seq<char>| final(writer)@ == old(writer)@ + encode_utf8(text),
{
    append_text(to_json_string_pretty(value), writer)
}

} // verus!
