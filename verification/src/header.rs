//! Which texts can be sent as the value of an HTTP header.

use vstd::prelude::*;
use vstd::utf8::{encode_utf8, is_ascii_chars, is_ascii_chars_encode_utf8};

verus! {

/// Whether the byte may occur in a header value: a tab, or anything from the
/// space upwards but the delete character.
pub open spec fn header_byte_ok(b: u8) -> bool {
    b == 9 || (b >= 32 && b != 127)
}

/// Whether every byte of the text's UTF-8 form may occur in a header value.
pub open spec fn header_text_ok(text: Seq<char>) -> bool {
    forall|i: int|
        0 <= i < encode_utf8(text).len() ==> header_byte_ok(#[trigger] encode_utf8(text)[i])
}

/// Whether `text` can be sent as the value of an HTTP header.
pub fn is_header_text(text: &str) -> (res: bool)
    ensures
        res == header_text_ok(text@),
{
    let bytes = text.as_bytes();
    let mut i: usize = 0;
    while i < bytes.len()
        invariant
            i <= bytes.len(),
            bytes@ == encode_utf8(text@),
            forall|j: int| 0 <= j < i ==> header_byte_ok(#[trigger] bytes@[j]),
        decreases bytes.len() - i,
    {
        let b: u8 = bytes[i];
        if !(b == 9 || (b >= 32 && b != 127)) {
            return false;
        }
        i += 1;
    }
    true
}

/// Whether the character is a tab or a printable ASCII character.
pub open spec fn plain_char(c: char) -> bool {
    c == '\t' || (' ' <= c && c <= '~')
}

/// Whether the text is made of tabs and printable ASCII characters alone.
pub open spec fn plain_text(text: Seq<char>) -> bool {
    forall|i: int| 0 <= i < text.len() ==> plain_char(#[trigger] text[i])
}

/// Of a text of ASCII characters, the characters themselves tell whether it
/// can be sent in a header: it can exactly if it holds no control character
/// but the tab.
pub proof fn lemma_ascii_header_text(text: Seq<char>)
    requires
        is_ascii_chars(text),
    ensures
        header_text_ok(text) <==> plain_text(text),
{
    is_ascii_chars_encode_utf8(text);
    let bytes = encode_utf8(text);
    assert forall|i: int| 0 <= i < text.len() implies (header_byte_ok(bytes[i]) <==> plain_char(
        #[trigger] text[i],
    )) by {
        assert(text[i] as u8 == bytes[i]);
    }
    if header_text_ok(text) {
        assert forall|i: int| 0 <= i < text.len() implies plain_char(#[trigger] text[i]) by {
            assert(header_byte_ok(bytes[i]));
        }
    }
    if plain_text(text) {
        assert forall|i: int| 0 <= i < bytes.len() implies header_byte_ok(#[trigger] bytes[i]) by {
            assert(plain_char(text[i]));
        }
    }
}

} // verus!
