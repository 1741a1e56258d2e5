//! A byte buffer that is read as UTF-8 text.

use vstd::prelude::*;
use bstr::BStr;
use crate::byte_str::{as_bstr, bstr_bytes};

verus! {

/// A byte buffer that is read as UTF-8 text. The bytes are kept as they are
/// given: nothing is checked or converted.
pub struct Utf8String(Vec<u8>);

impl View for Utf8String {
    type V = Seq<u8>;

    closed spec fn view(&self) -> Seq<u8> {
        self.0@
    }
}

impl Default for Utf8String {
    fn default() -> (r: Utf8String)
        ensures
            r@ == Seq::<u8>::empty(),
    {
        Utf8String(Vec::new())
    }
}

impl Clone for Utf8String {
    fn clone(&self) -> (r: Utf8String)
        ensures
            r@ == self@,
    {
        Utf8String(self.0.clone())
    }
}

impl Utf8String {
    /// Takes over a buffer.
    pub fn new(buf: Vec<u8>) -> (r: Utf8String)
        ensures
            r@ == buf@,
    {
        Utf8String(buf)
    }

    /// The bytes as a byte string.
    pub fn as_bstr(&self) -> (r: &BStr)
        ensures
            bstr_bytes(r) == self@,
    {
        as_bstr(&self.0)
    }

    /// The number of bytes.
    pub fn len(&self) -> (r: usize)
        ensures
            r == self@.len(),
    {
        self.0.len()
    }

    /// Keeps the first `len` bytes; a buffer that is no longer is left as
    /// it is.
    pub fn truncate(&mut self, len: usize)
        ensures
            final(self)@ == (if len <= old(self)@.len() {
                old(self)@.take(len as int)
            } else {
                old(self)@
            }),
    {
        self.0.truncate(len);
    }

    /// The buffer.
    pub fn buf(&self) -> (r: &Vec<u8>)
        ensures
            r@ == self@,
    {
        &self.0
    }

    /// The buffer, to be changed in place: what the caller leaves in it is
    /// what the string then holds.
    pub fn buf_mut(&mut self) -> (r: &mut Vec<u8>)
        ensures
            r@ == old(self)@,
            final(self)@ == final(r)@,
    {
        &mut self.0
    }
}

} // verus!
