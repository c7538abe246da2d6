//! The last step of every `to_*_writer` function: what an encoding came to is
//! written to a byte buffer, whole or not at all.

use crate::error::Error;
use vstd::prelude::*;
use vstd::utf8::encode_utf8;

verus! {

/// Writes what an encoding to text came to: the UTF-8 bytes of an encoded text
/// are appended to `writer` whole, a failure is handed on and `writer` is left
/// as it was.
pub fn append_text(encoded: Result<String, Error>, writer: &mut Vec<u8>) -> (r: Result<(), Error>)
    ensures
        encoded matches Ok(text) ==> r is Ok && final(writer)@ == old(writer)@ + encode_utf8(text@),
        encoded matches Err(e) ==> r == Err::<(), Error>(e) && final(writer)@ == old(writer)@,
{
    match encoded {
        Ok(text) => {
            let ghost before = writer@;
            writer.extend_from_slice(text.as_str().as_bytes());
            assert(writer@ =~= before + encode_utf8(text@));
            Ok(())
        },
        Err(e) => Err(e),
    }
}

/// Writes what an encoding to bytes came to: encoded bytes are appended to
/// `writer` whole, a failure is handed on and `writer` is left as it was.
pub fn append_encoded(encoded: Result<Vec<u8>, Error>, writer: &mut Vec<u8>) -> (r: Result<(), Error>)
    ensures
        encoded matches Ok(bytes) ==> r is Ok && final(writer)@ == old(writer)@ + bytes@,
        encoded matches Err(e) ==> r == Err::<(), Error>(e) && final(writer)@ == old(writer)@,
{
    match encoded {
        Ok(bytes) => {
            let ghost before = writer@;
            writer.extend_from_slice(bytes.as_slice());
            assert(writer@ =~= before + bytes@);
            Ok(())
        },
        Err(e) => Err(e),
    }
}

} // verus!
