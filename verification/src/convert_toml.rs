//! TOML: text and bytes to values, values to text.

use crate::error::{Cause, Error};
use crate::sink::append_text;
use crate::unify::{
    io_outcome, is_io_failure, is_toml_decode_failure, is_toml_encode_failure,
    is_utf8_failure, toml_decode_outcome, toml_encode_outcome, utf8_outcome,
};
use serde::de::DeserializeOwned;
use serde::Serialize;
use std::io::Error as IoError;
use std::str::Utf8Error;
use toml::de::Error as TomlDecodeError;
use toml::ser::Error as TomlEncodeError;
use vstd::prelude::*;
use vstd::string::StringSliceAdditionalSpecFns;
use vstd::utf8::{encode_utf8, valid_utf8};

verus! {

/// `std::str::from_utf8` accepts exactly the byte sequences that are valid
/// UTF-8, and the text it returns is encoded by the bytes it was given.
pub assume_specification<'a>[ std::str::from_utf8 ](v: &'a [u8]) -> (r: Result<&'a str, Utf8Error>)
    ensures
        r is Ok <==> valid_utf8(v@),
        r matches Ok(s) ==> s.spec_bytes() == v@,
;

/// Calls `toml::from_str`. Nothing is claimed of what it returns: that is
/// decided by the TOML codec and by how `T` deserializes.
#[verifier::external_body]
fn decode<T: DeserializeOwned>(toml: &str) -> (outcome: Result<T, TomlDecodeError>) {
    toml::from_str(toml)
}

/// Calls `toml::to_string`. Nothing is claimed of what it returns: that is
/// decided by the TOML codec and by how `T` serializes.
#[verifier::external_body]
fn encode<T: ?Sized + Serialize>(value: &T) -> (outcome: Result<String, TomlEncodeError>) {
    toml::to_string(value)
}

/// Converts from the TOML string to a value of `T` type.
///
/// Every failure is the codec's own, of kind `Invalid`.
pub fn from_toml_str<T: DeserializeOwned>(toml: &str) -> (r: Result<T, Error>)
    ensures
        r matches Err(e) ==> is_toml_decode_failure(e),
{
    toml_decode_outcome(decode(toml))
}

/// Converts from the TOML bytes to a value of `T` type.
///
/// Bytes that are not UTF-8 are always refused, before the codec sees them;
/// on UTF-8 every failure is the codec's own. Both are of kind `Invalid`.
pub fn from_toml_slice<T: DeserializeOwned>(toml: &[u8]) -> (r: Result<T, Error>)
    ensures
        !valid_utf8(toml@) ==> (r matches Err(e) && is_utf8_failure(e)),
        valid_utf8(toml@) ==> (r matches Err(e) ==> is_toml_decode_failure(e)),
{
    match utf8_outcome(std::str::from_utf8(toml)) {
        Ok(text) => from_toml_str(text),
        Err(e) => Err(e),
    }
}

/// Converts what a reader gave to a value of `T` type: `read` is the outcome
/// of reading the source to its end as text.
///
/// A failed read is of kind `Other` and keeps the I/O failure as its cause; on
/// a completed read every failure is the codec's own, of kind `Invalid`.
pub fn from_toml_reader<T: DeserializeOwned>(read: Result<String, IoError>) -> (r: Result<T, Error>)
    ensures
        read matches Err(f) ==> r == Err::<T, Error>(Error::caused_by(Cause::Io(f))),
        read is Err ==> (r matches Err(e) && is_io_failure(e)),
        read is Ok ==> (r matches Err(e) ==> is_toml_decode_failure(e)),
{
    match io_outcome(read) {
        Ok(text) => from_toml_str(text.as_str()),
        Err(e) => Err(e),
    }
}

/// Converts the value to a TOML string.
///
/// Every failure is the codec's own, of kind `Invalid`.
pub fn to_toml_string<T: ?Sized + Serialize>(value: &T) -> (r: Result<String, Error>)
    ensures
        r matches Err(e) ==> is_toml_encode_failure(e),
{
    toml_encode_outcome(encode(value))
}

/// Converts the value to a TOML string and appends its bytes to `writer`.
///
/// The value is encoded first and written whole: on failure `writer` is left
/// as it was, on success it grew by the UTF-8 encoding of some text.
pub fn to_toml_writer<T: ?Sized + Serialize>(value: &T, writer: &mut Vec<u8>) -> (r: Result<(), Error>)
    ensures
        r matches Err(e) ==> is_toml_encode_failure(e) && final(writer)@ == old(writer)@,
        r is Ok ==> exists|text: Seq<char>| final(writer)@ == old(writer)@ + encode_utf8(text),
{
    append_text(to_toml_string(value), writer)
}

} // verus!
