//! Null-terminated byte strings, as the native engine reads them.
//!
//! A text is any byte sequence without a zero byte. Its buffer is the text
//! followed by one zero byte; reading a buffer back stops at the first zero
//! byte. The two directions are inverse to each other on every text.

use vstd::prelude::*;
use vstd::string::{is_ascii, StringSliceAdditionalSpecFns};

verus! {

/// Whether some byte of `bytes` is zero.
pub open spec fn has_nul(bytes: Seq<u8>) -> bool {
    exists|i: int| 0 <= i < bytes.len() && bytes[i] == 0u8
}

/// The buffer that carries `text`: the text and one terminating zero byte.
pub open spec fn c_string(text: Seq<u8>) -> Seq<u8> {
    text.push(0u8)
}

/// Whether `buffer` is a terminated string: it ends in a zero byte and holds
/// no other.
pub open spec fn is_c_string(buffer: Seq<u8>) -> bool {
    &&& buffer.len() > 0
    &&& buffer.last() == 0u8
    &&& !has_nul(buffer.drop_last())
}

/// The number of bytes before the first zero byte of `buffer`, or all of
/// them where there is none.
pub open spec fn c_length(buffer: Seq<u8>) -> nat
    decreases buffer.len(),
{
    if buffer.len() == 0 || buffer[0] == 0u8 {
        0
    } else {
        1 + c_length(buffer.drop_first())
    }
}

/// The text that a reader of `buffer` sees: everything before the first zero
/// byte.
pub open spec fn c_text(buffer: Seq<u8>) -> Seq<u8> {
    buffer.take(c_length(buffer) as int)
}

/// `c_length` is the least index of a zero byte.
pub proof fn lemma_c_length(buffer: Seq<u8>, n: int)
    requires
        0 <= n <= buffer.len(),
        forall|i: int| 0 <= i < n ==> buffer[i] != 0u8,
        n < buffer.len() ==> buffer[n] == 0u8,
    ensures
        c_length(buffer) == n,
    decreases n,
{
    if n > 0 {
        let rest = buffer.drop_first();
        assert forall|i: int| 0 <= i < n - 1 implies rest[i] != 0u8 by {
            assert(rest[i] == buffer[i + 1]);
        }
        lemma_c_length(rest, n - 1);
    }
}

/// A reader never runs past the end of the buffer.
pub proof fn lemma_c_length_bound(buffer: Seq<u8>)
    ensures
        c_length(buffer) <= buffer.len(),
        has_nul(buffer) <==> c_length(buffer) < buffer.len(),
        forall|i: int| 0 <= i < c_length(buffer) ==> buffer[i] != 0u8,
        c_length(buffer) < buffer.len() ==> buffer[c_length(buffer) as int] == 0u8,
    decreases buffer.len(),
{
    if buffer.len() == 0 {
    } else if buffer[0] == 0u8 {
    } else {
        let rest = buffer.drop_first();
        lemma_c_length_bound(rest);
        assert forall|i: int| 0 <= i < c_length(buffer) implies buffer[i] != 0u8 by {
            if i > 0 {
                assert(buffer[i] == rest[i - 1]);
            }
        }
        if c_length(buffer) < buffer.len() {
            assert(buffer[c_length(buffer) as int] == rest[c_length(rest) as int]);
        }
        if has_nul(buffer) {
            let i = choose|i: int| 0 <= i < buffer.len() && buffer[i] == 0u8;
            assert(rest[i - 1] == 0u8);
        }
        if has_nul(rest) {
            let i = choose|i: int| 0 <= i < rest.len() && rest[i] == 0u8;
            assert(buffer[i + 1] == 0u8);
        }
    }
}

/// Writing a text into a buffer and reading the buffer back yields the text,
/// byte for byte.
pub proof fn lemma_c_string_round_trip(text: Seq<u8>)
    requires
        !has_nul(text),
    ensures
        is_c_string(c_string(text)),
        c_length(c_string(text)) == text.len(),
        c_text(c_string(text)) == text,
{
    let buffer = c_string(text);
    assert(buffer.drop_last() =~= text);
    assert forall|i: int| 0 <= i < text.len() implies buffer[i] != 0u8 by {
        assert(buffer[i] == text[i]);
    }
    lemma_c_length(buffer, text.len() as int);
    assert(buffer.take(text.len() as int) =~= text);
}

/// A terminated string is the buffer of the text read from it.
pub proof fn lemma_c_string_of_text(buffer: Seq<u8>)
    requires
        is_c_string(buffer),
    ensures
        !has_nul(c_text(buffer)),
        c_text(buffer) == buffer.drop_last(),
        c_string(c_text(buffer)) == buffer,
{
    let text = buffer.drop_last();
    assert(c_string(text) =~= buffer);
    lemma_c_string_round_trip(text);
}

/// A string of ASCII characters other than the zero character is encoded
/// one byte to the character, and none of the bytes is zero.
pub proof fn lemma_ascii_text(value: &str)
    requires
        is_ascii(value),
        forall|i: int| 0 <= i < value@.len() ==> value@[i] != '\0',
    ensures
        value.spec_bytes() == Seq::new(value@.len(), |i: int| value@[i] as u8),
        !has_nul(value.spec_bytes()),
{
    vstd::string::is_ascii_spec_bytes(value);
    assert forall|i: int| 0 <= i < value.spec_bytes().len() implies value.spec_bytes()[i]
        != 0u8 by {
        assert(value@[i] != '\0');
        assert((value@[i] as nat) < 128);
    }
}

/// Whether some byte of `bytes` is zero.
pub fn contains_nul(bytes: &[u8]) -> (found: bool)
    ensures
        found == has_nul(bytes@),
{
    let mut i: usize = 0;
    while i < bytes.len()
        invariant
            i <= bytes.len(),
            forall|j: int| 0 <= j < i ==> bytes@[j] != 0u8,
        decreases bytes.len() - i,
    {
        if bytes[i] == 0 {
            return true;
        }
        i += 1;
    }
    false
}

/// The length of the text in `buffer`: the index of its first zero byte.
/// `None` where the buffer holds no zero byte, so that a reader would run
/// past its end.
pub fn text_length(buffer: &[u8]) -> (length: Option<usize>)
    ensures
        length is Some <==> has_nul(buffer@),
        length is Some ==> length->Some_0 == c_length(buffer@),
{
    proof {
        lemma_c_length_bound(buffer@);
    }
    let mut i: usize = 0;
    while i < buffer.len()
        invariant
            i <= buffer.len(),
            forall|j: int| 0 <= j < i ==> buffer@[j] != 0u8,
        decreases buffer.len() - i,
    {
        if buffer[i] == 0 {
            proof {
                lemma_c_length(buffer@, i as int);
            }
            return Some(i);
        }
        i += 1;
    }
    None
}

/// Copies `text` into a fresh buffer and terminates it.
pub fn terminated(text: &[u8]) -> (buffer: Vec<u8>)
    ensures
        buffer@ == c_string(text@),
{
    let mut buffer: Vec<u8> = Vec::with_capacity(text.len());
    let mut i: usize = 0;
    while i < text.len()
        invariant
            i <= text.len(),
            buffer@ == text@.take(i as int),
        decreases text.len() - i,
    {
        buffer.push(text[i]);
        proof {
            assert(text@.take(i as int).push(text@[i as int]) =~= text@.take(i + 1));
        }
        i += 1;
    }
    proof {
        assert(text@.take(text@.len() as int) =~= text@);
    }
    buffer.push(0);
    buffer
}

} // verus!
