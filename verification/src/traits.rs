//! Method syntax for the conversions. Every type has these traits; each
//! method asks that the type can be deserialized or serialized, and does what
//! the free function of the same name does.

use crate::error::{Cause, Error};
use crate::unify::{
    is_io_failure, is_json_failure, is_msgpack_decode_failure, is_msgpack_encode_failure,
    is_toml_decode_failure, is_toml_encode_failure, is_utf8_failure,
};
use serde::de::DeserializeOwned;
use serde::Serialize;
use std::io::Error as IoError;
use vstd::prelude::*;
use vstd::utf8::{encode_utf8, valid_utf8};

verus! {

/// This trait allows to convert TOML objects to deserializable values.
pub trait FromToml: Sized {
    /// Converts what a reader gave to an instance of this implementation:
    /// `read` is the outcome of reading the source to its end as text.
    fn from_toml_reader(read: Result<String, IoError>) -> (r: Result<Self, Error>) where Self: DeserializeOwned
        ensures
            read matches Err(f) ==> r == Err::<Self, Error>(Error::caused_by(Cause::Io(f))),
            read is Err ==> (r matches Err(e) && is_io_failure(e)),
            read is Ok ==> (r matches Err(e) ==> is_toml_decode_failure(e)),
    {
        crate::convert_toml::from_toml_reader(read)
    }

    /// Converts from the TOML string to an instance of this implementation.
    fn from_toml_str(toml: &str) -> (r: Result<Self, Error>) where Self: DeserializeOwned
        ensures
            r matches Err(e) ==> is_toml_decode_failure(e),
    {
        crate::convert_toml::from_toml_str(toml)
    }

    /// Converts from the TOML bytes to an instance of this implementation.
    fn from_toml_slice(toml: &[u8]) -> (r: Result<Self, Error>) where Self: DeserializeOwned
        ensures
            !valid_utf8(toml@) ==> (r matches Err(e) && is_utf8_failure(e)),
            valid_utf8(toml@) ==> (r matches Err(e) ==> is_toml_decode_failure(e)),
    {
        crate::convert_toml::from_toml_slice(toml)
    }
}

impl<T> FromToml for T {

}

/// This trait allows to convert serializable values to TOML objects.
pub trait ToToml {
    /// Converts this to a TOML string and appends its bytes to `writer`.
    fn to_toml_writer(&self, writer: &mut Vec<u8>) -> (r: Result<(), Error>) where Self: Serialize
        ensures
            r matches Err(e) ==> is_toml_encode_failure(e) && final(writer)@ == old(writer)@,
            r is Ok ==> exists|text: Seq<char>| final(writer)@ == old(writer)@ + encode_utf8(text),
    {
        crate::convert_toml::to_toml_writer(self, writer)
    }

    /// Converts this to a TOML string.
    fn to_toml_string(&self) -> (r: Result<String, Error>) where Self: Serialize
        ensures
            r matches Err(e) ==> is_toml_encode_failure(e),
    {
        crate::convert_toml::to_toml_string(self)
    }
}

impl<T: ?Sized> ToToml for T {

}

/// This trait allows to convert JSON objects to deserializable values.
pub trait FromJson: Sized {
    /// Converts what a reader gave to an instance of this implementation:
    /// `read` is the outcome of reading the source to its end.
    fn from_json_reader(read: Result<Vec<u8>, IoError>) -> (r: Result<Self, Error>) where Self: DeserializeOwned
        ensures
            read matches Err(f) ==> r == Err::<Self, Error>(Error::caused_by(Cause::Io(f))),
            read is Err ==> (r matches Err(e) && is_io_failure(e)),
            read is Ok ==> (r matches Err(e) ==> is_json_failure(e)),
    {
        crate::convert_json::from_json_reader(read)
    }

    /// Converts from the JSON string to an instance of this implementation.
    fn from_json_str(json: &str) -> (r: Result<Self, Error>) where Self: DeserializeOwned
        ensures
            r matches Err(e) ==> is_json_failure(e),
    {
        crate::convert_json::from_json_str(json)
    }

    /// Converts from the JSON bytes to an instance of this implementation.
    fn from_json_slice(json: &[u8]) -> (r: Result<Self, Error>) where Self: DeserializeOwned
        ensures
            r matches Err(e) ==> is_json_failure(e),
    {
        crate::convert_json::from_json_slice(json)
    }
}

impl<T> FromJson for T {

}

/// This trait allows to convert serializable values to JSON objects.
pub trait ToJson {
    /// Converts this to a JSON string and appends its bytes to `writer`.
    fn to_json_writer(&self, writer: &mut Vec<u8>) -> (r: Result<(), Error>) where Self: Serialize
        ensures
            r matches Err(e) ==> is_json_failure(e) && final(writer)@ == old(writer)@,
            r is Ok ==> exists|text: Seq<char>| final(writer)@ == old(writer)@ + encode_utf8(text),
    {
        crate::convert_json::to_json_writer(self, writer)
    }

    /// Converts this to a pretty printed JSON string and appends its bytes to
    /// `writer`.
    fn to_json_writer_pretty(&self, writer: &mut Vec<u8>) -> (r: Result<(), Error>) where Self: Serialize
        ensures
            r matches Err(e) ==> is_json_failure(e) && final(writer)@ == old(writer)@,
            r is Ok ==> exists|text: Seq<char>| final(writer)@ == old(writer)@ + encode_utf8(text),
    {
        crate::convert_json::to_json_writer_pretty(self, writer)
    }

    /// Converts this to a JSON string.
    fn to_json_string(&self) -> (r: Result<String, Error>) where Self: Serialize
        ensures
            r matches Err(e) ==> is_json_failure(e),
    {
        crate::convert_json::to_json_string(self)
    }

    /// Converts this to a pretty printed JSON string.
    fn to_json_string_pretty(&self) -> (r: Result<String, Error>) where Self: Serialize
        ensures
            r matches Err(e) ==> is_json_failure(e),
    {
        crate::convert_json::to_json_string_pretty(self)
    }
}

impl<T: ?Sized> ToJson for T {

}

/// This trait allows to convert MessagePack objects to deserializable values.
pub trait FromMsgPack: Sized {
    /// Converts what a reader gave to an instance of this implementation:
    /// `read` is the outcome of reading the source to its end.
    fn from_msgpack_reader(read: Result<Vec<u8>, IoError>) -> (r: Result<Self, Error>) where Self: DeserializeOwned
        ensures
            read matches Err(f) ==> r == Err::<Self, Error>(Error::caused_by(Cause::Io(f))),
            read is Err ==> (r matches Err(e) && is_io_failure(e)),
            read is Ok ==> (r matches Err(e) ==> is_msgpack_decode_failure(e)),
    {
        crate::convert_msgpack::from_msgpack_reader(read)
    }

    /// Converts from the MessagePack bytes to an instance of this implementation.
    fn from_msgpack_slice(bytes: &[u8]) -> (r: Result<Self, Error>) where Self: DeserializeOwned
        ensures
            r matches Err(e) ==> is_msgpack_decode_failure(e),
    {
        crate::convert_msgpack::from_msgpack_slice(bytes)
    }
}

impl<T> FromMsgPack for T {

}

/// This trait allows to convert serializable values to MessagePack objects.
pub trait ToMsgPack {
    /// Converts this to a MessagePack bytes and appends them to `writer`.
    fn to_msgpack_writer(&self, writer: &mut Vec<u8>) -> (r: Result<(), Error>) where Self: Serialize
        ensures
            r matches Err(e) ==> is_msgpack_encode_failure(e) && final(writer)@ == old(writer)@,
            r is Ok ==> old(writer)@.is_prefix_of(final(writer)@),
    {
        crate::convert_msgpack::to_msgpack_writer(self, writer)
    }

    /// Converts this to a MessagePack bytes.
    fn to_msgpack_vec(&self) -> (r: Result<Vec<u8>, Error>) where Self: Serialize
        ensures
            r matches Err(e) ==> is_msgpack_encode_failure(e),
    {
        crate::convert_msgpack::to_msgpack_vec(self)
    }
}

impl<T: ?Sized> ToMsgPack for T {

}

} // verus!
