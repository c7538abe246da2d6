//! Conversions between serializable values and their TOML, JSON and
//! MessagePack forms, with one error type for all three.
//!
//! Encoding and decoding are the work of `toml`, `serde_json` and `rmp_serde`.
//! What this crate adds, and proves, is what surrounds them: each failure is
//! kept as the cause of an [`Error`] and sorted into `Invalid` or `Other`;
//! bytes meant as TOML are checked for UTF-8 first; a failed read never
//! reaches a codec; a failed encoding leaves the writer untouched.
//!
//! Readers and writers are in memory here: a `from_*_reader` function takes
//! what reading a source to its end gave, and a `to_*_writer` function
//! appends to a byte buffer.

pub mod convert_json;
pub mod convert_msgpack;
pub mod convert_toml;
pub mod error;
pub mod sink;
pub mod traits;
pub mod unify;

pub use convert_json::{
    from_json_reader, from_json_slice, from_json_str, to_json_string, to_json_string_pretty,
    to_json_writer, to_json_writer_pretty,
};
pub use convert_msgpack::{
    from_msgpack_reader, from_msgpack_slice, to_msgpack_vec, to_msgpack_writer,
};
pub use convert_toml::{
    from_toml_reader, from_toml_slice, from_toml_str, to_toml_string, to_toml_writer,
};
pub use error::{Cause, Error, ErrorKind};
pub use sink::{append_encoded, append_text};
pub use traits::{FromJson, FromMsgPack, FromToml, ToJson, ToMsgPack, ToToml};
pub use unify::{
    io_outcome, json_outcome, msgpack_decode_outcome, msgpack_encode_outcome,
    toml_decode_outcome, toml_encode_outcome, utf8_outcome,
};
