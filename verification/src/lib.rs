//! Value types of a scripting-language runtime.
//!
//! The larger part is the runtime's time type: an instant with nanosecond
//! resolution and the offset that it is shown in. A time is made from a
//! positional argument list ([`args`]), from wall-clock components that the
//! rules of a time zone resolve to an instant ([`resolve`]), or from a Unix
//! timestamp ([`time`]). Equality, order and hashing of times go by the
//! instant alone.
//!
//! The smaller part are the byte buffers that a string of the runtime is
//! kept in, tagged with their encoding ([`encoded_string`]).
//!
//! The rules of the time zones come from the `tz` and `tzdb` crates, and
//! byte strings from `bstr`. What is taken on trust from them stands in
//! [`zone`] and [`byte_str`].

pub mod args;
pub mod ascii_string;
pub mod binary_string;
pub mod byte_str;
pub mod encoded_string;
pub mod encoding;
pub mod offset;
pub mod resolve;
pub mod text;
pub mod time;
pub mod utf8_string;
pub mod zone;

pub use crate::args::Args;
pub use crate::encoded_string::EncodedString;
pub use crate::encoding::Encoding;
pub use crate::offset::Offset;
pub use crate::time::{Time, TimeError, ToA, NANOS_IN_SECOND};
pub use crate::utf8_string::Utf8String;
