//! Strings as they cross the engine's C interface: NUL-terminated bytes.
use vstd::prelude::*;
use vstd::string::StringSliceAdditionalSpecFns;
use vstd::utf8::{decode_utf8, valid_utf8};

use crate::error::Error;

verus! {

/// True when `b` holds a zero byte.
pub open spec fn has_nul(b: Seq<u8>) -> bool {
    exists|i: int| 0 <= i < b.len() && b[i] == 0
}

/// True when `i` is the offset of the first zero byte of `b`.
pub open spec fn is_first_nul(b: Seq<u8>, i: int) -> bool {
    &&& 0 <= i < b.len()
    &&& b[i] == 0
    &&& forall|j: int| 0 <= j < i ==> b[j] != 0
}

/// The C form of a byte string: its bytes followed by one terminating zero.
pub open spec fn c_string_of(b: Seq<u8>) -> Seq<u8> {
    b.push(0u8)
}

/// The bytes of a C buffer up to (not including) its first zero byte, or
/// all of them when it holds none.
pub open spec fn c_prefix(b: Seq<u8>) -> Seq<u8> {
    if has_nul(b) {
        b.subrange(0, choose|i: int| is_first_nul(b, i))
    } else {
        b
    }
}

/// Relies on `String::from_utf8`: it succeeds exactly on valid UTF-8, and the
/// resulting string holds the characters that the bytes encode.
#[verifier::external_body]
fn utf8_to_string(bytes: Vec<u8>) -> (r: Option<String>)
    ensures
        r.is_some() == valid_utf8(bytes@),
        r matches Some(s) ==> s@ == decode_utf8(bytes@),
{
    match String::from_utf8(bytes) {
        Ok(s) => Some(s),
        Err(_) => None,
    }
}

/// Finds the first zero byte of `b`.
pub fn find_nul(b: &[u8]) -> (r: Option<usize>)
    ensures
        r.is_none() == !has_nul(b@),
        r matches Some(i) ==> is_first_nul(b@, i as int),
{
    let mut i: usize = 0;
    while i < b.len()
        invariant
            i <= b@.len(),
            forall|j: int| 0 <= j < i ==> b@[j] != 0,
        decreases b@.len() - i,
    {
        if b[i] == 0 {
            return Some(i);
        }
        i = i + 1;
    }
    None
}

/// The C form of `s`: its UTF-8 bytes followed by a terminating zero.
/// A string that holds a zero byte is refused, with the offset of that byte;
/// `entry` is passed through into the error to say which string it was.
pub fn to_c_string_entry(s: &str, entry: usize) -> (r: Result<Vec<u8>, Error>)
    ensures
        r.is_ok() == !has_nul(s.spec_bytes()),
        r matches Ok(v) ==> v@ == c_string_of(s.spec_bytes()),
        r matches Err(e) ==> (e matches Error::InteriorNul { entry: k, position }
            && k == entry && is_first_nul(s.spec_bytes(), position as int)),
{
    let bytes = s.as_bytes();
    match find_nul(bytes) {
        Some(position) => Err(Error::InteriorNul { entry, position }),
        None => {
            let mut out: Vec<u8> = Vec::new();
            let mut i: usize = 0;
            while i < bytes.len()
                invariant
                    i <= bytes@.len(),
                    out@ == bytes@.subrange(0, i as int),
                decreases bytes@.len() - i,
            {
                out.push(bytes[i]);
                i = i + 1;
            }
            out.push(0u8);
            assert(bytes@.subrange(0, bytes@.len() as int) == bytes@);
            Ok(out)
        }
    }
}

/// The C form of a single string, as [`to_c_string_entry`] with entry 0.
pub fn to_c_string(s: &str) -> (r: Result<Vec<u8>, Error>)
    ensures
        r.is_ok() == !has_nul(s.spec_bytes()),
        r matches Ok(v) ==> v@ == c_string_of(s.spec_bytes()),
        r matches Err(e) ==> (e matches Error::InteriorNul { entry, position }
            && entry == 0 && is_first_nul(s.spec_bytes(), position as int)),
{
    to_c_string_entry(s, 0)
}

/// Copies a string out of a buffer the engine handed back: the bytes before
/// the first zero byte, decoded as UTF-8.
pub fn from_c_bytes(raw: &[u8]) -> (r: Result<String, Error>)
    ensures
        r.is_ok() == valid_utf8(c_prefix(raw@)),
        r matches Ok(s) ==> s@ == decode_utf8(c_prefix(raw@)),
        r matches Err(e) ==> e == Error::InvalidUtf8,
{
    let end: usize = match find_nul(raw) {
        Some(i) => i,
        None => raw.len(),
    };
    let mut text: Vec<u8> = Vec::new();
    let mut i: usize = 0;
    while i < end
        invariant
            end <= raw@.len(),
            i <= end,
            text@ == raw@.subrange(0, i as int),
        decreases end - i,
    {
        text.push(raw[i]);
        i = i + 1;
    }
    proof {
        if has_nul(raw@) {
            let k = choose|k: int| is_first_nul(raw@, k);
            assert(k == end as int) by {
                if k < end as int {
                } else if k > end as int {
                }
            }
        } else {
            assert(raw@.subrange(0, raw@.len() as int) == raw@);
        }
    }
    match utf8_to_string(text) {
        Some(s) => Ok(s),
        None => Err(Error::InvalidUtf8),
    }
}

} // verus!
