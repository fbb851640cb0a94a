//! Reading Borsh-encoded values out of a byte buffer: integers are
//! little-endian, a `bool` is one byte that is 0 or 1, an `Option` is a byte
//! that is 0 or 1 and then the value, and a string is a 32-bit length and
//! then that many bytes of UTF-8.
//!
//! Each reader takes the position to read at and gives back the value and the
//! position behind it, or `None` if the bytes there do not encode a value.

use crate::bytes::{le_u16, le_u32, le_u64, read_array32, read_u16_le, read_u32_le, read_u64_le};
use crate::pubkey::Pubkey;
use vstd::prelude::*;
use vstd::slice::{slice_subrange, slice_to_vec};
use vstd::utf8::{decode_utf8, valid_utf8};

verus! {

pub open spec fn take_u8(s: Seq<u8>, at: int) -> Option<(u8, int)> {
    if 0 <= at < s.len() {
        Some((s[at], at + 1))
    } else {
        None
    }
}

pub open spec fn take_bool(s: Seq<u8>, at: int) -> Option<(bool, int)> {
    if 0 <= at < s.len() && s[at] <= 1 {
        Some((s[at] == 1, at + 1))
    } else {
        None
    }
}

pub open spec fn take_u16(s: Seq<u8>, at: int) -> Option<(u16, int)> {
    if 0 <= at && at + 2 <= s.len() {
        Some((le_u16(s, at), at + 2))
    } else {
        None
    }
}

pub open spec fn take_u32(s: Seq<u8>, at: int) -> Option<(u32, int)> {
    if 0 <= at && at + 4 <= s.len() {
        Some((le_u32(s, at), at + 4))
    } else {
        None
    }
}

pub open spec fn take_u64(s: Seq<u8>, at: int) -> Option<(u64, int)> {
    if 0 <= at && at + 8 <= s.len() {
        Some((le_u64(s, at), at + 8))
    } else {
        None
    }
}

/// A 32-byte address.
pub open spec fn take_key(s: Seq<u8>, at: int) -> Option<(Seq<u8>, int)> {
    if 0 <= at && at + 32 <= s.len() {
        Some((s.subrange(at, at + 32), at + 32))
    } else {
        None
    }
}

pub open spec fn take_option_u8(s: Seq<u8>, at: int) -> Option<(Option<u8>, int)> {
    if 0 <= at < s.len() && s[at] == 0 {
        Some((None, at + 1))
    } else if 0 <= at < s.len() && s[at] == 1 {
        match take_u8(s, at + 1) {
            Some((v, next)) => Some((Some(v), next)),
            None => None,
        }
    } else {
        None
    }
}

/// A string: its length in bytes as a 32-bit integer, then its UTF-8 bytes.
pub open spec fn take_string(s: Seq<u8>, at: int) -> Option<(Seq<char>, int)> {
    match take_u32(s, at) {
        Some((len, start)) => if start + len <= s.len() && valid_utf8(
            s.subrange(start, start + len),
        ) {
            Some((decode_utf8(s.subrange(start, start + len)), start + len))
        } else {
            None
        },
        None => None,
    }
}

pub fn read_u8(data: &[u8], at: usize) -> (r: Option<(u8, usize)>)
    ensures
        r is Some <==> take_u8(data@, at as int) is Some,
        r matches Some((v, next)) ==> take_u8(data@, at as int) == Some((v, next as int)),
{
    if at < data.len() {
        Some((data[at], at + 1))
    } else {
        None
    }
}

pub fn read_bool(data: &[u8], at: usize) -> (r: Option<(bool, usize)>)
    ensures
        r is Some <==> take_bool(data@, at as int) is Some,
        r matches Some((v, next)) ==> take_bool(data@, at as int) == Some((v, next as int)),
{
    if at < data.len() && data[at] <= 1 {
        Some((data[at] == 1, at + 1))
    } else {
        None
    }
}

pub fn read_u16(data: &[u8], at: usize) -> (r: Option<(u16, usize)>)
    ensures
        r is Some <==> take_u16(data@, at as int) is Some,
        r matches Some((v, next)) ==> take_u16(data@, at as int) == Some((v, next as int)),
{
    if data.len() >= 2 && at <= data.len() - 2 {
        Some((read_u16_le(data, at), at + 2))
    } else {
        None
    }
}

pub fn read_u32(data: &[u8], at: usize) -> (r: Option<(u32, usize)>)
    ensures
        r is Some <==> take_u32(data@, at as int) is Some,
        r matches Some((v, next)) ==> take_u32(data@, at as int) == Some((v, next as int)),
{
    if data.len() >= 4 && at <= data.len() - 4 {
        Some((read_u32_le(data, at), at + 4))
    } else {
        None
    }
}

pub fn read_u64(data: &[u8], at: usize) -> (r: Option<(u64, usize)>)
    ensures
        r is Some <==> take_u64(data@, at as int) is Some,
        r matches Some((v, next)) ==> take_u64(data@, at as int) == Some((v, next as int)),
{
    if data.len() >= 8 && at <= data.len() - 8 {
        Some((read_u64_le(data, at), at + 8))
    } else {
        None
    }
}

pub fn read_key(data: &[u8], at: usize) -> (r: Option<(Pubkey, usize)>)
    ensures
        r is Some <==> take_key(data@, at as int) is Some,
        r matches Some((v, next)) ==> take_key(data@, at as int) == Some((v@, next as int)),
{
    if data.len() >= 32 && at <= data.len() - 32 {
        Some((Pubkey(read_array32(data, at)), at + 32))
    } else {
        None
    }
}

pub fn read_option_u8(data: &[u8], at: usize) -> (r: Option<(Option<u8>, usize)>)
    ensures
        r is Some <==> take_option_u8(data@, at as int) is Some,
        r matches Some((v, next)) ==> take_option_u8(data@, at as int) == Some((v, next as int)),
{
    if at >= data.len() {
        return None;
    }
    let flag = data[at];
    if flag == 0 {
        Some((None, at + 1))
    } else if flag == 1 {
        match read_u8(data, at + 1) {
            Some((v, next)) => Some((Some(v), next)),
            None => None,
        }
    } else {
        None
    }
}

/// Calls `String::from_utf8`. Taken on trust: it gives the text that the
/// bytes encode, and fails exactly when the bytes are not UTF-8.
#[verifier::external_body]
fn string_from_utf8(bytes: Vec<u8>) -> (r: Option<String>)
    ensures
        r is Some <==> valid_utf8(bytes@),
        r matches Some(text) ==> text@ == decode_utf8(bytes@),
{
    String::from_utf8(bytes).ok()
}

pub fn read_string(data: &[u8], at: usize) -> (r: Option<(String, usize)>)
    ensures
        r is Some <==> take_string(data@, at as int) is Some,
        r matches Some((v, next)) ==> take_string(data@, at as int) == Some((v@, next as int)),
{
    match read_u32(data, at) {
        None => None,
        Some((len, start)) => {
            if len as u64 > (data.len() - start) as u64 {
                return None;
            }
            let end = start + len as usize;
            match string_from_utf8(slice_to_vec(slice_subrange(data, start, end))) {
                Some(text) => Some((text, end)),
                None => None,
            }
        },
    }
}

} // verus!
