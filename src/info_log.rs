//! Diagnostic logs handed back by the graphics driver after a failed compile
//! or link.

use vstd::prelude::*;
use vstd::utf8::{
    decode_first_scalar, decode_utf8, leading_bits_width_1, pop_first_scalar, valid_utf8,
};

verus! {

/// How many bytes of a log buffer are text: the driver's reported length
/// counts a trailing terminator, which is left out, and never more than the
/// buffer holds.
pub open spec fn text_len(reported: int, available: int) -> int {
    if reported <= 1 {
        0
    } else if reported - 1 <= available {
        reported - 1
    } else {
        available
    }
}

/// The bytes of a log buffer that hold its text.
pub open spec fn log_bytes(reported: i32, buffer: Seq<u8>) -> Seq<u8> {
    buffer.take(text_len(reported as int, buffer.len() as int))
}

/// Every byte is ASCII, below 0x80.
pub open spec fn is_ascii_bytes(b: Seq<u8>) -> bool {
    forall|i: int| 0 <= i < b.len() ==> #[trigger] b[i] < 0x80
}

/// The characters that ASCII bytes stand for, one for each byte.
pub open spec fn ascii_chars(b: Seq<u8>) -> Seq<char> {
    b.map_values(|x: u8| (x as u32) as char)
}

/// ASCII bytes are valid UTF-8, and decode to one character for each byte,
/// of the byte's value.
pub proof fn lemma_ascii_decodes(b: Seq<u8>)
    requires
        is_ascii_bytes(b),
    ensures
        valid_utf8(b),
        decode_utf8(b) == ascii_chars(b),
    decreases b.len(),
{
    if b.len() > 0 {
        let x = b[0];
        assert(leading_bits_width_1(x) == x as u32) by (bit_vector)
            requires
                x < 0x80,
        ;
        assert(decode_first_scalar(b) == x as u32);
        let rest = pop_first_scalar(b);
        assert(rest =~= b.subrange(1, b.len() as int));
        assert(is_ascii_bytes(rest)) by {
            assert forall|i: int| 0 <= i < rest.len() implies #[trigger] rest[i] < 0x80 by {
                assert(rest[i] == b[i + 1]);
            }
        }
        lemma_ascii_decodes(rest);
        assert(decode_utf8(b) =~= ascii_chars(b));
    } else {
        assert(decode_utf8(b) =~= ascii_chars(b));
    }
}

/// Relies on `String::from_utf8`: it succeeds exactly when the bytes are
/// valid UTF-8, and then holds the characters that they encode.
#[verifier::external_body]
fn string_from_utf8(bytes: Vec<u8>) -> (r: Option<String>)
    ensures
        r.is_some() == valid_utf8(bytes@),
        r.is_some() ==> r.unwrap()@ == decode_utf8(bytes@),
{
    String::from_utf8(bytes).ok()
}

/// The text part of a log buffer of which the driver reported `reported`
/// bytes, terminator included.
pub fn log_text_bytes(reported: i32, buffer: Vec<u8>) -> (r: Vec<u8>)
    ensures
        r@ == log_bytes(reported, buffer@),
{
    let mut r = buffer;
    let keep: usize = if reported <= 1 {
        0
    } else if (reported - 1) as usize <= r.len() {
        (reported - 1) as usize
    } else {
        r.len()
    };
    r.truncate(keep);
    assert(r@ =~= log_bytes(reported, buffer@));
    r
}

/// Decodes the text of a log buffer: `None` where its text part is not valid
/// UTF-8.
pub fn decode_log(reported: i32, buffer: Vec<u8>) -> (r: Option<String>)
    ensures
        r.is_some() == valid_utf8(log_bytes(reported, buffer@)),
        r.is_some() ==> r.unwrap()@ == decode_utf8(log_bytes(reported, buffer@)),
{
    let text = log_text_bytes(reported, buffer);
    string_from_utf8(text)
}

} // verus!
