//! Reading the terminated strings that a C library hands out.

use vstd::prelude::*;
use vstd::slice::slice_subrange;
use vstd::utf8::{decode_utf8, valid_utf8};

verus! {

/// How many bytes stand before the first terminator of a buffer; all of
/// them, if it holds none.
pub open spec fn c_str_len(buffer: Seq<u8>) -> int
    decreases buffer.len(),
{
    if buffer.len() == 0 || buffer[0] == 0 {
        0
    } else {
        1 + c_str_len(buffer.drop_first())
    }
}

/// The string that a buffer holds: its bytes before the first terminator.
pub open spec fn c_str_content(buffer: Seq<u8>) -> Seq<u8> {
    buffer.take(c_str_len(buffer))
}

/// The text of the string behind a pointer: none behind a null pointer,
/// none where the bytes are not UTF-8.
pub open spec fn c_str_text(buffer: Option<Seq<u8>>) -> Option<Seq<char>> {
    match buffer {
        Some(bytes) if valid_utf8(c_str_content(bytes)) => Some(decode_utf8(c_str_content(bytes))),
        _ => None,
    }
}

/// The length of the string is that of a prefix without terminator, and it
/// ends at a terminator or at the end of the buffer.
pub proof fn lemma_c_str_len(buffer: Seq<u8>)
    ensures
        0 <= c_str_len(buffer) <= buffer.len(),
        forall|i: int| 0 <= i < c_str_len(buffer) ==> buffer[i] != 0,
        c_str_len(buffer) < buffer.len() ==> buffer[c_str_len(buffer)] == 0,
    decreases buffer.len(),
{
    if buffer.len() > 0 && buffer[0] != 0 {
        let rest = buffer.drop_first();
        lemma_c_str_len(rest);
        assert forall|i: int| 0 <= i < c_str_len(buffer) implies buffer[i] != 0 by {
            if i > 0 {
                assert(buffer[i] == rest[i - 1]);
            }
        }
    }
}

/// A prefix without terminator that ends at a terminator, or at the end of
/// the buffer, is the string of the buffer.
pub proof fn lemma_c_str_len_is(buffer: Seq<u8>, n: int)
    requires
        0 <= n <= buffer.len(),
        forall|i: int| 0 <= i < n ==> buffer[i] != 0,
        n < buffer.len() ==> buffer[n] == 0,
    ensures
        c_str_len(buffer) == n,
    decreases buffer.len(),
{
    if n > 0 {
        let rest = buffer.drop_first();
        assert forall|i: int| 0 <= i < n - 1 implies rest[i] != 0 by {
            assert(rest[i] == buffer[i + 1]);
        }
        lemma_c_str_len_is(rest, n - 1);
    }
}

/// The bytes of a buffer that may be absent.
pub open spec fn opt_buffer(buffer: Option<&[u8]>) -> Option<Seq<u8>> {
    match buffer {
        Some(bytes) => Some(bytes@),
        None => None,
    }
}

/// Calls `std::str::from_utf8` and copies the text it accepts. It accepts
/// exactly the bytes that are valid UTF-8, and the text is the one they
/// encode.
#[verifier::external_body]
fn utf8_text(bytes: &[u8]) -> (res: Option<String>)
    ensures
        res is Some <==> valid_utf8(bytes@),
        res matches Some(text) ==> text@ == decode_utf8(bytes@),
{
    match std::str::from_utf8(bytes) {
        Ok(text) => Some(text.to_owned()),
        Err(_) => None,
    }
}

/// The text of a C string, given the memory behind its pointer: `None`
/// for a null pointer; otherwise the bytes up to the first terminator, if
/// they are UTF-8, and `None` if they are not.
pub fn c_str_to_string(ptr: Option<&[u8]>) -> (res: Option<String>)
    ensures
        crate::cups::ipp_attribute::opt_text(res) == c_str_text(opt_buffer(ptr)),
{
    let buffer = match ptr {
        Some(buffer) => buffer,
        None => {
            return None;
        },
    };
    let mut n: usize = 0;
    while n < buffer.len() && buffer[n] != 0
        invariant
            n <= buffer.len(),
            forall|i: int| 0 <= i < n ==> buffer@[i] != 0,
        decreases buffer.len() - n,
    {
        n += 1;
    }
    proof {
        lemma_c_str_len_is(buffer@, n as int);
    }
    utf8_text(slice_subrange(buffer, 0, n))
}

} // verus!
