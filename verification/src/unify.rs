//! One path from every native failure to this crate's error: the outcome of
//! an I/O operation, of a UTF-8 check or of a codec call goes in, and comes
//! out with a success untouched and a failure wrapped and sorted into its kind.

use crate::error::{Cause, Error, ErrorKind};
use rmp_serde::decode::Error as MsgPackDecodeError;
use rmp_serde::encode::Error as MsgPackEncodeError;
use serde_json::Error as JsonError;
use std::io::Error as IoError;
use std::str::Utf8Error;
use toml::de::Error as TomlDecodeError;
use toml::ser::Error as TomlEncodeError;
use vstd::prelude::*;

verus! {

/// Whether a failure says that an I/O operation failed.
pub open spec fn is_io_failure(e: Error) -> bool {
    e.kind_spec() == ErrorKind::Other && e.cause_spec() is Io
}

/// What the outcome of an I/O operation comes to: a success as it is, a
/// failure as an error of this crate with that failure as its cause.
pub open spec fn io_outcome_spec<T>(outcome: Result<T, IoError>) -> Result<T, Error> {
    match outcome {
        Ok(value) => Ok(value),
        Err(f) => Err(Error::caused_by(Cause::Io(f))),
    }
}

/// Puts the outcome of an I/O operation under this crate's error type.
/// A failure is of kind `Other`.
pub fn io_outcome<T>(outcome: Result<T, IoError>) -> (r: Result<T, Error>)
    ensures
        r == io_outcome_spec(outcome),
        r matches Err(e) ==> is_io_failure(e),
{
    match outcome {
        Ok(value) => Ok(value),
        Err(f) => Err(Error::new(Cause::Io(f))),
    }
}

/// Whether a failure says that bytes were not UTF-8.
pub open spec fn is_utf8_failure(e: Error) -> bool {
    e.kind_spec() == ErrorKind::Invalid && e.cause_spec() is Utf8
}

/// What the outcome of a UTF-8 check comes to: a success as it is, a
/// failure as an error of this crate with that failure as its cause.
pub open spec fn utf8_outcome_spec<T>(outcome: Result<T, Utf8Error>) -> Result<T, Error> {
    match outcome {
        Ok(value) => Ok(value),
        Err(f) => Err(Error::caused_by(Cause::Utf8(f))),
    }
}

/// Puts the outcome of a UTF-8 check under this crate's error type.
/// A failure is of kind `Invalid`.
pub fn utf8_outcome<T>(outcome: Result<T, Utf8Error>) -> (r: Result<T, Error>)
    ensures
        r == utf8_outcome_spec(outcome),
        r matches Err(e) ==> is_utf8_failure(e),
{
    match outcome {
        Ok(value) => Ok(value),
        Err(f) => Err(Error::new(Cause::Utf8(f))),
    }
}

/// Whether a failure is one that the JSON codec reported.
pub open spec fn is_json_failure(e: Error) -> bool {
    e.kind_spec() == ErrorKind::Invalid && e.cause_spec() is Json
}

/// What the outcome of a call of the JSON codec comes to: a success as it is, a
/// failure as an error of this crate with that failure as its cause.
pub open spec fn json_outcome_spec<T>(outcome: Result<T, JsonError>) -> Result<T, Error> {
    match outcome {
        Ok(value) => Ok(value),
        Err(f) => Err(Error::caused_by(Cause::Json(f))),
    }
}

/// Puts the outcome of a call of the JSON codec under this crate's error type.
/// A failure is of kind `Invalid`.
pub fn json_outcome<T>(outcome: Result<T, JsonError>) -> (r: Result<T, Error>)
    ensures
        r == json_outcome_spec(outcome),
        r matches Err(e) ==> is_json_failure(e),
{
    match outcome {
        Ok(value) => Ok(value),
        Err(f) => Err(Error::new(Cause::Json(f))),
    }
}

/// Whether a failure is one that the TOML codec reported while decoding.
pub open spec fn is_toml_decode_failure(e: Error) -> bool {
    e.kind_spec() == ErrorKind::Invalid && e.cause_spec() is TomlDecode
}

/// What the outcome of decoding with the TOML codec comes to: a success as it is, a
/// failure as an error of this crate with that failure as its cause.
pub open spec fn toml_decode_outcome_spec<T>(outcome: Result<T, TomlDecodeError>) -> Result<T, Error> {
    match outcome {
        Ok(value) => Ok(value),
        Err(f) => Err(Error::caused_by(Cause::TomlDecode(f))),
    }
}

/// Puts the outcome of decoding with the TOML codec under this crate's error type.
/// A failure is of kind `Invalid`.
pub fn toml_decode_outcome<T>(outcome: Result<T, TomlDecodeError>) -> (r: Result<T, Error>)
    ensures
        r == toml_decode_outcome_spec(outcome),
        r matches Err(e) ==> is_toml_decode_failure(e),
{
    match outcome {
        Ok(value) => Ok(value),
        Err(f) => Err(Error::new(Cause::TomlDecode(f))),
    }
}

/// Whether a failure is one that the TOML codec reported while encoding.
pub open spec fn is_toml_encode_failure(e: Error) -> bool {
    e.kind_spec() == ErrorKind::Invalid && e.cause_spec() is TomlEncode
}

/// What the outcome of encoding with the TOML codec comes to: a success as it is, a
/// failure as an error of this crate with that failure as its cause.
pub open spec fn toml_encode_outcome_spec<T>(outcome: Result<T, TomlEncodeError>) -> Result<T, Error> {
    match outcome {
        Ok(value) => Ok(value),
        Err(f) => Err(Error::caused_by(Cause::TomlEncode(f))),
    }
}

/// Puts the outcome of encoding with the TOML codec under this crate's error type.
/// A failure is of kind `Invalid`.
pub fn toml_encode_outcome<T>(outcome: Result<T, TomlEncodeError>) -> (r: Result<T, Error>)
    ensures
        r == toml_encode_outcome_spec(outcome),
        r matches Err(e) ==> is_toml_encode_failure(e),
{
    match outcome {
        Ok(value) => Ok(value),
        Err(f) => Err(Error::new(Cause::TomlEncode(f))),
    }
}

/// Whether a failure is one that the MessagePack codec reported while
/// decoding.
pub open spec fn is_msgpack_decode_failure(e: Error) -> bool {
    e.kind_spec() == ErrorKind::Invalid && e.cause_spec() is MsgPackDecode
}

/// What the outcome of decoding with the MessagePack codec comes to: a success as it is, a
/// failure as an error of this crate with that failure as its cause.
pub open spec fn msgpack_decode_outcome_spec<T>(outcome: Result<T, MsgPackDecodeError>) -> Result<T, Error> {
    match outcome {
        Ok(value) => Ok(value),
        Err(f) => Err(Error::caused_by(Cause::MsgPackDecode(f))),
    }
}

/// Puts the outcome of decoding with the MessagePack codec under this crate's error type.
/// A failure is of kind `Invalid`.
pub fn msgpack_decode_outcome<T>(outcome: Result<T, MsgPackDecodeError>) -> (r: Result<T, Error>)
    ensures
        r == msgpack_decode_outcome_spec(outcome),
        r matches Err(e) ==> is_msgpack_decode_failure(e),
{
    match outcome {
        Ok(value) => Ok(value),
        Err(f) => Err(Error::new(Cause::MsgPackDecode(f))),
    }
}

/// Whether a failure is one that the MessagePack codec reported while
/// encoding.
pub open spec fn is_msgpack_encode_failure(e: Error) -> bool {
    e.kind_spec() == ErrorKind::Invalid && e.cause_spec() is MsgPackEncode
}

/// What the outcome of encoding with the MessagePack codec comes to: a success as it is, a
/// failure as an error of this crate with that failure as its cause.
pub open spec fn msgpack_encode_outcome_spec<T>(outcome: Result<T, MsgPackEncodeError>) -> Result<T, Error> {
    match outcome {
        Ok(value) => Ok(value),
        Err(f) => Err(Error::caused_by(Cause::MsgPackEncode(f))),
    }
}

/// Puts the outcome of encoding with the MessagePack codec under this crate's error type.
/// A failure is of kind `Invalid`.
pub fn msgpack_encode_outcome<T>(outcome: Result<T, MsgPackEncodeError>) -> (r: Result<T, Error>)
    ensures
        r == msgpack_encode_outcome_spec(outcome),
        r matches Err(e) ==> is_msgpack_encode_failure(e),
{
    match outcome {
        Ok(value) => Ok(value),
        Err(f) => Err(Error::new(Cause::MsgPackEncode(f))),
    }
}

} // verus!
