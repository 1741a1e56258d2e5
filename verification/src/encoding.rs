//! The encodings that a string buffer can be tagged with.

use vstd::prelude::*;

verus! {

/// How the bytes of a string are to be read.
#[derive(Clone, Copy, Debug, PartialEq, Eq)]
pub enum Encoding {
    /// Seven-bit ASCII.
    Ascii,
    /// Arbitrary bytes.
    Binary,
    /// UTF-8, not necessarily well formed.
    Utf8,
}

} // verus!
