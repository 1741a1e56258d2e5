//! A byte buffer tagged with its encoding.

use vstd::prelude::*;
use bstr::BStr;
use crate::ascii_string::AsciiString;
use crate::binary_string::BinaryString;
use crate::byte_str::bstr_bytes;
use crate::encoding::Encoding;
use crate::utf8_string::Utf8String;

verus! {

/// A string in one of the supported encodings. Each operation is handed on
/// to the string of that encoding.
pub enum EncodedString {
    Ascii(AsciiString),
    Binary(BinaryString),
    Utf8(Utf8String),
}

impl View for EncodedString {
    type V = Seq<u8>;

    open spec fn view(&self) -> Seq<u8> {
        match self {
            EncodedString::Ascii(inner) => inner@,
            EncodedString::Binary(inner) => inner@,
            EncodedString::Utf8(inner) => inner@,
        }
    }
}

impl EncodedString {
    /// The encoding that the string is tagged with.
    pub open spec fn tag(&self) -> Encoding {
        match self {
            EncodedString::Ascii(_) => Encoding::Ascii,
            EncodedString::Binary(_) => Encoding::Binary,
            EncodedString::Utf8(_) => Encoding::Utf8,
        }
    }

    /// Takes over a buffer under the given encoding.
    pub fn new(buf: Vec<u8>, encoding: Encoding) -> (r: EncodedString)
        ensures
            r@ == buf@,
            r.tag() == encoding,
    {
        match encoding {
            Encoding::Ascii => EncodedString::Ascii(AsciiString::new(buf)),
            Encoding::Binary => EncodedString::Binary(BinaryString::new(buf)),
            Encoding::Utf8 => EncodedString::Utf8(Utf8String::new(buf)),
        }
    }

    /// The encoding that the string is tagged with.
    pub fn encoding(&self) -> (r: Encoding)
        ensures
            r == self.tag(),
    {
        match self {
            EncodedString::Ascii(_) => Encoding::Ascii,
            EncodedString::Binary(_) => Encoding::Binary,
            EncodedString::Utf8(_) => Encoding::Utf8,
        }
    }

    /// The bytes as a byte string.
    pub fn as_bstr(&self) -> (r: &BStr)
        ensures
            bstr_bytes(r) == self@,
    {
        match self {
            EncodedString::Ascii(inner) => inner.as_bstr(),
            EncodedString::Binary(inner) => inner.as_bstr(),
            EncodedString::Utf8(inner) => inner.as_bstr(),
        }
    }

    /// The number of bytes.
    pub fn len(&self) -> (r: usize)
        ensures
            r == self@.len(),
    {
        match self {
            EncodedString::Ascii(inner) => inner.len(),
            EncodedString::Binary(inner) => inner.len(),
            EncodedString::Utf8(inner) => inner.len(),
        }
    }

    /// Keeps the first `len` bytes; a string that is no longer is left as it
    /// is. The encoding stays.
    pub fn truncate(&mut self, len: usize)
        ensures
            final(self)@ == (if len <= old(self)@.len() {
                old(self)@.take(len as int)
            } else {
                old(self)@
            }),
            final(self).tag() == old(self).tag(),
    {
        match self {
            EncodedString::Ascii(inner) => inner.truncate(len),
            EncodedString::Binary(inner) => inner.truncate(len),
            EncodedString::Utf8(inner) => inner.truncate(len),
        }
    }

    /// The buffer.
    pub fn buf(&self) -> (r: &Vec<u8>)
        ensures
            r@ == self@,
    {
        match self {
            EncodedString::Ascii(inner) => inner.buf(),
            EncodedString::Binary(inner) => inner.buf(),
            EncodedString::Utf8(inner) => inner.buf(),
        }
    }

    /// The buffer, to be changed in place: what the caller leaves in it is
    /// what the string then holds, under the same encoding.
    pub fn buf_mut(&mut self) -> (r: &mut Vec<u8>)
        ensures
            r@ == old(self)@,
            final(self)@ == final(r)@,
            final(self).tag() == old(self).tag(),
    {
        match self {
            EncodedString::Ascii(inner) => inner.buf_mut(),
            EncodedString::Binary(inner) => inner.buf_mut(),
            EncodedString::Utf8(inner) => inner.buf_mut(),
        }
    }
}

} // verus!
