//! Byte strings of the `bstr` crate, as a borrowed form of a byte buffer.
//!
//! Nothing in this module is proved: its contracts are taken on trust from
//! the `bstr` crate's source and documentation.

use vstd::prelude::*;
use bstr::{BStr, ByteSlice};

verus! {

/// `bstr::BStr`: a byte string slice that need not be UTF-8. Opaque here.
#[verifier::external_type_specification]
#[verifier::external_body]
pub struct ExBStr(BStr);

/// The bytes that a byte string holds, in order.
pub uninterp spec fn bstr_bytes(text: &BStr) -> Seq<u8>;

/// Calls `bstr::ByteSlice::as_bstr`, which lends a byte slice out as a byte
/// string without copying. Claimed: the byte string holds the bytes of the
/// buffer.
#[verifier::external_body]
pub(crate) fn as_bstr(buf: &Vec<u8>) -> (r: &BStr)
    ensures
        bstr_bytes(r) == buf@,
{
    buf.as_bstr()
}

} // verus!
