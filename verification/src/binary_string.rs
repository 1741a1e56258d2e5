//! A byte buffer that is read as arbitrary bytes.

use vstd::prelude::*;
use bstr::BStr;
use crate::byte_str::{as_bstr, bstr_bytes};

verus! {

/// A byte buffer that is read as arbitrary bytes. The bytes are kept as they are
/// given: nothing is checked or converted.
pub struct BinaryString(Vec<u8>);

impl View for BinaryString {
    type V = Seq<u8>;

    closed spec fn view(&self) -> Seq<u8> {
        self.0@
    }
}

impl Default for BinaryString {
    fn default() -> (r: BinaryString)
        ensures
            r@ == Seq::<u8>::empty(),
    {
        BinaryString(Vec::new())
    }
}

impl Clone for BinaryString {
    fn clone(&self) -> (r: BinaryString)
        ensures
            r@ == self@,
    {
        BinaryString(self.0.clone())
    }
}

impl BinaryString {
    /// Takes over a buffer.
    pub fn new(buf: Vec<u8>) -> (r: BinaryString)
        ensures
            r@ == buf@,
    {
        BinaryString(buf)
    }

    /// The bytes as a byte string.
    pub fn as_bstr(&self) -> (r: &BStr)
        ensures
            bstr_bytes(r) == self@,
    {
        as_bstr(&self.0)
    }

    /// The number of bytes.
    pub fn len(&self) -> (r: usize)
        ensures
            r == self@.len(),
    {
        self.0.len()
    }

    /// Keeps the first `len` bytes; a buffer that is no longer is left as
    /// it is.
    pub fn truncate(&mut self, len: usize)
        ensures
            final(self)@ == (if len <= old(self)@.len() {
                old(self)@.take(len as int)
            } else {
                old(self)@
            }),
    {
        self.0.truncate(len);
    }

    /// The buffer.
    pub fn buf(&self) -> (r: &Vec<u8>)
        ensures
            r@ == self@,
    {
        &self.0
    }

    /// The buffer, to be changed in place: what the caller leaves in it is
    /// what the string then holds.
    pub fn buf_mut(&mut self) -> (r: &mut Vec<u8>)
        ensures
            r@ == old(self)@,
            final(self)@ == final(r)@,
    {
        &mut self.0
    }
}

} // verus!
