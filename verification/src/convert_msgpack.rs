//! MessagePack: bytes to values, values to bytes.

use crate::error::{Cause, Error};
use crate::sink::append_encoded;
use crate::unify::{
    io_outcome, is_io_failure, is_msgpack_decode_failure, is_msgpack_encode_failure,
    msgpack_decode_outcome, msgpack_encode_outcome,
};
use rmp_serde::decode::Error as MsgPackDecodeError;
use rmp_serde::encode::Error as MsgPackEncodeError;
use serde::de::DeserializeOwned;
use serde::{Deserialize, Serialize};
use std::io::Error as IoError;
use vstd::prelude::*;

verus! {

/// Calls `rmp_serde::from_slice`. Nothing is claimed of what it returns: that
/// is decided by the MessagePack codec and by how `T` deserializes.
#[verifier::external_body]
fn decode<'a, T: Deserialize<'a>>(bytes: &'a [u8]) -> (outcome: Result<T, MsgPackDecodeError>) {
    rmp_serde::from_slice(bytes)
}

/// Calls `rmp_serde::encode::to_vec`. Nothing is claimed of what it returns:
/// that is decided by the MessagePack codec and by how `T` serializes.
#[verifier::external_body]
fn encode<T: ?Sized + Serialize>(value: &T) -> (outcome: Result<Vec<u8>, MsgPackEncodeError>) {
    rmp_serde::encode::to_vec(value)
}

/// Converts from the MessagePack bytes to a value of `T` type.
///
/// Every failure is the codec's own, of kind `Invalid`.
pub fn from_msgpack_slice<'a, T: Deserialize<'a>>(bytes: &'a [u8]) -> (r: Result<T, Error>)
    ensures
        r matches Err(e) ==> is_msgpack_decode_failure(e),
{
    msgpack_decode_outcome(decode(bytes))
}

/// Converts what a reader gave to a value of `T` type: `read` is the outcome
/// of reading the source to its end.
///
/// A failed read is of kind `Other` and keeps the I/O failure as its cause; on
/// a completed read every failure is the codec's own, of kind `Invalid`.
pub fn from_msgpack_reader<T: DeserializeOwned>(
    read: Result<Vec<u8>, IoError>,
) -> (r: Result<T, Error>)
    ensures
        read matches Err(f) ==> r == Err::<T, Error>(Error::caused_by(Cause::Io(f))),
        read is Err ==> (r matches Err(e) && is_io_failure(e)),
        read is Ok ==> (r matches Err(e) ==> is_msgpack_decode_failure(e)),
{
    match io_outcome(read) {
        Ok(bytes) => from_msgpack_slice(bytes.as_slice()),
        Err(e) => Err(e),
    }
}

/// Converts the value to a MessagePack bytes.
///
/// Every failure is the codec's own, of kind `Invalid`.
pub fn to_msgpack_vec<T: ?Sized + Serialize>(value: &T) -> (r: Result<Vec<u8>, Error>)
    ensures
        r matches Err(e) ==> is_msgpack_encode_failure(e),
{
    msgpack_encode_outcome(encode(value))
}

/// Converts the value to a MessagePack bytes and appends them to `writer`.
///
/// The value is encoded first and written whole: on failure `writer` is left
/// as it was, on success what it held before is still its beginning.
pub fn to_msgpack_writer<T: ?Sized + Serialize>(
    value: &T,
    writer: &mut Vec<u8>,
) -> (r: Result<(), Error>)
    ensures
        r matches Err(e) ==> is_msgpack_encode_failure(e) && final(writer)@ == old(writer)@,
        r is Ok ==> old(writer)@.is_prefix_of(final(writer)@),
{
    append_encoded(to_msgpack_vec(value), writer)
}

} // verus!
