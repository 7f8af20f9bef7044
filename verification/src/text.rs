//! Text fields: UTF-8 bytes, as a whole payload or up to a zero byte.

use vstd::prelude::*;
use vstd::slice::{slice_subrange, slice_to_vec};
use vstd::utf8::{decode_utf8, valid_utf8};

verus! {

/// Where the text that starts at `from` ends: at the first zero byte, or at
/// the end of `bytes` where there is none.
pub open spec fn text_end(bytes: Seq<u8>, from: int) -> int
    decreases bytes.len() - from,
{
    if from < 0 || from >= bytes.len() || bytes[from] == 0 {
        from
    } else {
        text_end(bytes, from + 1)
    }
}

/// The bytes of the zero-terminated text that starts at `from`, without
/// the zero.
pub open spec fn terminated_bytes(bytes: Seq<u8>, from: int) -> Seq<u8> {
    bytes.subrange(from, text_end(bytes, from))
}

/// The characters that `bytes` encode, where they are well-formed UTF-8.
pub open spec fn spec_decode_text(bytes: Seq<u8>) -> Option<Seq<char>> {
    if valid_utf8(bytes) {
        Some(decode_utf8(bytes))
    } else {
        None
    }
}

/// The end of a text lies within the bytes, no byte of the text is zero,
/// and the text stops only at a zero byte or at the end of the bytes.
pub proof fn lemma_text_end(bytes: Seq<u8>, from: int)
    requires
        0 <= from <= bytes.len(),
    ensures
        from <= text_end(bytes, from) <= bytes.len(),
        forall|i: int| from <= i < text_end(bytes, from) ==> bytes[i] != 0,
        text_end(bytes, from) < bytes.len() ==> bytes[text_end(bytes, from)] == 0,
    decreases bytes.len() - from,
{
    if from < bytes.len() && bytes[from] != 0 {
        lemma_text_end(bytes, from + 1);
    }
}

/// Finds the end of the zero-terminated text that starts at `from`.
pub fn find_text_end(bytes: &[u8], from: usize) -> (end: usize)
    requires
        from <= bytes.len(),
    ensures
        end == text_end(bytes@, from as int),
        from <= end <= bytes.len(),
{
    let mut end: usize = from;
    while end < bytes.len() && bytes[end] != 0
        invariant
            from <= end <= bytes.len(),
            text_end(bytes@, from as int) == text_end(bytes@, end as int),
        decreases bytes.len() - end,
    {
        end += 1;
    }
    end
}

/// `String::from_utf8` of the standard library: the bytes become a string
/// exactly when they are well-formed UTF-8, and the string then holds the
/// characters that they encode.
#[verifier::external_body]
fn string_from_utf8(bytes: Vec<u8>) -> (text: Option<String>)
    ensures
        text is Some == valid_utf8(bytes@),
        text is Some ==> text.unwrap()@ == decode_utf8(bytes@),
{
    match String::from_utf8(bytes) {
        Ok(text) => Some(text),
        Err(_) => None,
    }
}

/// Decodes `bytes` as UTF-8 text; `None` where they are not well-formed.
pub fn decode_text(bytes: &[u8]) -> (text: Option<String>)
    ensures
        text is Some == spec_decode_text(bytes@) is Some,
        text is Some ==> text.unwrap()@ == spec_decode_text(bytes@).unwrap(),
{
    string_from_utf8(slice_to_vec(bytes))
}

/// Decodes the zero-terminated text that starts at `from`; `None` where
/// its bytes are not well-formed UTF-8.
pub fn decode_terminated_text(bytes: &[u8], from: usize) -> (text: Option<String>)
    requires
        from <= bytes.len(),
    ensures
        text is Some == spec_decode_text(terminated_bytes(bytes@, from as int)) is Some,
        text is Some ==> text.unwrap()@ == spec_decode_text(
            terminated_bytes(bytes@, from as int),
        ).unwrap(),
{
    let end = find_text_end(bytes, from);
    decode_text(slice_subrange(bytes, from, end))
}

} // verus!
