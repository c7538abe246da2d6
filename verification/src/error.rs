//! The error type shared by every conversion, and the rule that sorts each
//! native failure into one of two kinds.

use rmp_serde::decode::Error as MsgPackDecodeError;
use rmp_serde::encode::Error as MsgPackEncodeError;
use serde_json::Error as JsonError;
use std::io::Error as IoError;
use std::str::Utf8Error;
use toml::de::Error as TomlDecodeError;
use toml::ser::Error as TomlEncodeError;
use vstd::prelude::*;
use vstd::std_specs::convert::FromSpecImpl;

verus! {

/// `std::io::Error`, carried as it is: nothing inside it is read here.
#[verifier::external_type_specification]
#[verifier::external_body]
pub struct ExIoError(IoError);

/// `std::str::Utf8Error`, carried as it is: nothing inside it is read here.
#[verifier::external_type_specification]
#[verifier::external_body]
pub struct ExUtf8Error(Utf8Error);

/// `serde_json::Error`, carried as it is: nothing inside it is read here.
#[verifier::external_type_specification]
#[verifier::external_body]
pub struct ExJsonError(JsonError);

/// `toml::de::Error`, carried as it is: nothing inside it is read here.
#[verifier::external_type_specification]
#[verifier::external_body]
pub struct ExTomlDecodeError(TomlDecodeError);

/// `toml::ser::Error`, carried as it is: nothing inside it is read here.
#[verifier::external_type_specification]
#[verifier::external_body]
pub struct ExTomlEncodeError(TomlEncodeError);

/// `rmp_serde::decode::Error`, carried as it is: nothing inside it is read here.
#[verifier::external_type_specification]
#[verifier::external_body]
pub struct ExMsgPackDecodeError(MsgPackDecodeError);

/// `rmp_serde::encode::Error`, carried as it is: nothing inside it is read here.
#[verifier::external_type_specification]
#[verifier::external_body]
pub struct ExMsgPackEncodeError(MsgPackEncodeError);

/// A list of error kinds.
#[derive(Debug, Clone, Copy, PartialEq, Eq, Structural)]
pub enum ErrorKind {
    /// The content was rejected: malformed text or bytes, a shape that does
    /// not fit the requested type, or a value the format cannot hold.
    Invalid,
    /// The surroundings failed: an I/O operation did not complete.
    Other,
}

/// The native failure that an [`Error`] was made from, kept whole.
#[derive(Debug)]
pub enum Cause {
    /// A read, write, open or create failed.
    Io(IoError),
    /// Bytes handed over as text were not UTF-8.
    Utf8(Utf8Error),
    /// The JSON codec refused to decode or to encode.
    Json(JsonError),
    /// The TOML codec refused to decode.
    TomlDecode(TomlDecodeError),
    /// The TOML codec refused to encode.
    TomlEncode(TomlEncodeError),
    /// The MessagePack codec refused to decode.
    MsgPackDecode(MsgPackDecodeError),
    /// The MessagePack codec refused to encode.
    MsgPackEncode(MsgPackEncodeError),
}

impl Cause {
    /// The kind that a failure is sorted into: `Other` for I/O, `Invalid` for
    /// everything a codec or the UTF-8 check rejects.
    pub open spec fn kind_spec(self) -> ErrorKind {
        match self {
            Cause::Io(_) => ErrorKind::Other,
            _ => ErrorKind::Invalid,
        }
    }

    /// Sorts this failure into its kind.
    pub fn kind(&self) -> (k: ErrorKind)
        ensures
            k == self.kind_spec(),
    {
        match self {
            Cause::Io(_) => ErrorKind::Other,
            Cause::Utf8(_) => ErrorKind::Invalid,
            Cause::Json(_) => ErrorKind::Invalid,
            Cause::TomlDecode(_) => ErrorKind::Invalid,
            Cause::TomlEncode(_) => ErrorKind::Invalid,
            Cause::MsgPackDecode(_) => ErrorKind::Invalid,
            Cause::MsgPackEncode(_) => ErrorKind::Invalid,
        }
    }
}

/// The error type for this crate: a kind, and the failure it was made from.
#[derive(Debug)]
pub struct Error {
    kind: ErrorKind,
    cause: Cause,
}

impl Error {
    #[verifier::type_invariant]
    spec fn consistent(self) -> bool {
        self.kind == self.cause.kind_spec()
    }

    /// The kind of this error, as contracts speak of it.
    pub closed spec fn kind_spec(self) -> ErrorKind {
        self.kind
    }

    /// The failure behind this error, as contracts speak of it.
    pub closed spec fn cause_spec(self) -> Cause {
        self.cause
    }

    /// The error that a given failure is turned into.
    pub closed spec fn caused_by(cause: Cause) -> Error {
        Error { kind: cause.kind_spec(), cause }
    }

    /// Wraps a native failure, sorting it into its kind.
    pub fn new(cause: Cause) -> (e: Error)
        ensures
            e == Error::caused_by(cause),
            e.cause_spec() == cause,
            e.kind_spec() == cause.kind_spec(),
    {
        let kind = cause.kind();
        Error { kind, cause }
    }

    /// The kind of this error. It is `Other` exactly when the cause is an I/O
    /// failure.
    pub fn kind(&self) -> (k: &ErrorKind)
        ensures
            *k == self.kind_spec(),
            *k == self.cause_spec().kind_spec(),
    {
        proof {
            use_type_invariant(self);
        }
        &self.kind
    }

    /// The native failure that this error was made from.
    pub fn cause(&self) -> (c: &Cause)
        ensures
            *c == self.cause_spec(),
    {
        &self.cause
    }

    /// Gives the native failure back, consuming the error.
    pub fn into_cause(self) -> (c: Cause)
        ensures
            c == self.cause_spec(),
    {
        self.cause
    }
}

/// What `Error::caused_by` builds: the cause it was given, under the kind that
/// the cause is sorted into.
pub broadcast proof fn lemma_caused_by(cause: Cause)
    ensures
        (#[trigger] Error::caused_by(cause)).cause_spec() == cause,
        Error::caused_by(cause).kind_spec() == cause.kind_spec(),
{
}

/// Only an I/O failure makes an error of kind `Other`; every other cause
/// makes one of kind `Invalid`.
pub proof fn lemma_other_exactly_for_io(cause: Cause)
    ensures
        Error::caused_by(cause).kind_spec() == ErrorKind::Other <==> cause is Io,
        Error::caused_by(cause).kind_spec() == ErrorKind::Invalid <==> !(cause is Io),
{
}

/// An I/O failure becomes an error of kind `Other`.
impl From<IoError> for Error {
    fn from(f: IoError) -> (e: Error)
        ensures
            e.kind_spec() == ErrorKind::Other,
            e.cause_spec() == Cause::Io(f),
    {
        Error::new(Cause::Io(f))
    }
}

impl FromSpecImpl<IoError> for Error {
    open spec fn obeys_from_spec() -> bool {
        true
    }

    open spec fn from_spec(f: IoError) -> Error {
        Error::caused_by(Cause::Io(f))
    }
}

/// Bytes that are not UTF-8 become an error of kind `Invalid`.
impl From<Utf8Error> for Error {
    fn from(f: Utf8Error) -> (e: Error)
        ensures
            e.kind_spec() == ErrorKind::Invalid,
            e.cause_spec() == Cause::Utf8(f),
    {
        Error::new(Cause::Utf8(f))
    }
}

impl FromSpecImpl<Utf8Error> for Error {
    open spec fn obeys_from_spec() -> bool {
        true
    }

    open spec fn from_spec(f: Utf8Error) -> Error {
        Error::caused_by(Cause::Utf8(f))
    }
}

/// A failure of the JSON codec becomes an error of kind `Invalid`.
impl From<JsonError> for Error {
    fn from(f: JsonError) -> (e: Error)
        ensures
            e.kind_spec() == ErrorKind::Invalid,
            e.cause_spec() == Cause::Json(f),
    {
        Error::new(Cause::Json(f))
    }
}

impl FromSpecImpl<JsonError> for Error {
    open spec fn obeys_from_spec() -> bool {
        true
    }

    open spec fn from_spec(f: JsonError) -> Error {
        Error::caused_by(Cause::Json(f))
    }
}

/// A failure to decode TOML becomes an error of kind `Invalid`.
impl From<TomlDecodeError> for Error {
    fn from(f: TomlDecodeError) -> (e: Error)
        ensures
            e.kind_spec() == ErrorKind::Invalid,
            e.cause_spec() == Cause::TomlDecode(f),
    {
        Error::new(Cause::TomlDecode(f))
    }
}

impl FromSpecImpl<TomlDecodeError> for Error {
    open spec fn obeys_from_spec() -> bool {
        true
    }

    open spec fn from_spec(f: TomlDecodeError) -> Error {
        Error::caused_by(Cause::TomlDecode(f))
    }
}

/// A failure to encode TOML becomes an error of kind `Invalid`.
impl From<TomlEncodeError> for Error {
    fn from(f: TomlEncodeError) -> (e: Error)
        ensures
            e.kind_spec() == ErrorKind::Invalid,
            e.cause_spec() == Cause::TomlEncode(f),
    {
        Error::new(Cause::TomlEncode(f))
    }
}

impl FromSpecImpl<TomlEncodeError> for Error {
    open spec fn obeys_from_spec() -> bool {
        true
    }

    open spec fn from_spec(f: TomlEncodeError) -> Error {
        Error::caused_by(Cause::TomlEncode(f))
    }
}

/// A failure to decode MessagePack becomes an error of kind `Invalid`.
impl From<MsgPackDecodeError> for Error {
    fn from(f: MsgPackDecodeError) -> (e: Error)
        ensures
            e.kind_spec() == ErrorKind::Invalid,
            e.cause_spec() == Cause::MsgPackDecode(f),
    {
        Error::new(Cause::MsgPackDecode(f))
    }
}

impl FromSpecImpl<MsgPackDecodeError> for Error {
    open spec fn obeys_from_spec() -> bool {
        true
    }

    open spec fn from_spec(f: MsgPackDecodeError) -> Error {
        Error::caused_by(Cause::MsgPackDecode(f))
    }
}

/// A failure to encode MessagePack becomes an error of kind `Invalid`.
impl From<MsgPackEncodeError> for Error {
    fn from(f: MsgPackEncodeError) -> (e: Error)
        ensures
            e.kind_spec() == ErrorKind::Invalid,
            e.cause_spec() == Cause::MsgPackEncode(f),
    {
        Error::new(Cause::MsgPackEncode(f))
    }
}

impl FromSpecImpl<MsgPackEncodeError> for Error {
    open spec fn obeys_from_spec() -> bool {
        true
    }

    open spec fn from_spec(f: MsgPackEncodeError) -> Error {
        Error::caused_by(Cause::MsgPackEncode(f))
    }
}

} // verus!
