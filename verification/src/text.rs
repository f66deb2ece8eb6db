//! Byte strings in the form that C interfaces expect.

use vstd::prelude::*;
use vstd::string::*;

verus! {

/// The bytes of a terminated string: the UTF-8 encoding of `text` followed by
/// a single zero byte.
pub open spec fn terminated(text: Seq<char>) -> Seq<u8> {
    vstd::utf8::encode_utf8(text).push(0u8)
}

/// Encodes `s` as UTF-8 and appends the terminating zero byte.
pub fn cstr(s: &str) -> (bytes: Vec<u8>)
    ensures
        bytes@ == terminated(s@),
{
    let mut bytes = s.as_bytes_vec();
    bytes.push(0u8);
    bytes
}

} // verus!
