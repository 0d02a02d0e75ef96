//! Text at the native boundary: lossy decoding of what comes in, strict encoding of
//! what goes out, and trimming.

use crate::error::FileError;
use crate::native::c_str_view;
use vstd::prelude::*;
use vstd::slice::slice_to_vec;
use vstd::utf8::*;

verus! {

/// The text that lossy decoding makes of bytes that are not valid UTF-8: every
/// well-formed sequence among them gives its character, the rest gives U+FFFD.
pub uninterp spec fn lossy_utf8(bytes: Seq<u8>) -> Seq<char>;

/// The text that lossy decoding makes of `bytes`: the text that they encode where they
/// are valid UTF-8, and `lossy_utf8` of them where they are not.
pub open spec fn decoded_text(bytes: Seq<u8>) -> Seq<char> {
    if valid_utf8(bytes) {
        decode_utf8(bytes)
    } else {
        lossy_utf8(bytes)
    }
}

/// `String::from_utf8_lossy` of std, copied into an owned string. It never fails: valid
/// UTF-8 comes back as the text that it encodes, and of other bytes the invalid
/// sequences are replaced by U+FFFD, not removed, so that bytes give at least one
/// character.
#[verifier::external_body]
fn from_utf8_lossy(bytes: &[u8]) -> (text: String)
    ensures
        valid_utf8(bytes@) ==> text@ == decode_utf8(bytes@),
        !valid_utf8(bytes@) ==> text@ == lossy_utf8(bytes@),
        bytes@.len() > 0 ==> text@.len() > 0,
{
    String::from_utf8_lossy(bytes).into_owned()
}

/// `std::str::from_utf8`, with the error dropped: the bytes as text exactly when they
/// are valid UTF-8.
#[verifier::external_body]
pub(crate) fn from_utf8(bytes: &[u8]) -> (text: Option<&str>)
    ensures
        text is Some <==> valid_utf8(bytes@),
        text matches Some(t) ==> t@ == decode_utf8(bytes@),
{
    std::str::from_utf8(bytes).ok()
}

/// Whether `c` has the Unicode property White_Space.
pub open spec fn is_whitespace(c: char) -> bool {
    ||| '\u{9}' <= c <= '\u{d}'
    ||| c == ' '
    ||| c == '\u{85}'
    ||| c == '\u{a0}'
    ||| c == '\u{1680}'
    ||| '\u{2000}' <= c <= '\u{200a}'
    ||| c == '\u{2028}'
    ||| c == '\u{2029}'
    ||| c == '\u{202f}'
    ||| c == '\u{205f}'
    ||| c == '\u{3000}'
}

/// `s` without its leading whitespace.
pub open spec fn trim_start(s: Seq<char>) -> Seq<char>
    decreases s.len(),
{
    if s.len() > 0 && is_whitespace(s.first()) {
        trim_start(s.drop_first())
    } else {
        s
    }
}

/// `s` without its trailing whitespace.
pub open spec fn trim_end(s: Seq<char>) -> Seq<char>
    decreases s.len(),
{
    if s.len() > 0 && is_whitespace(s.last()) {
        trim_end(s.drop_last())
    } else {
        s
    }
}

/// `s` without its leading and trailing whitespace.
pub open spec fn trimmed(s: Seq<char>) -> Seq<char> {
    trim_end(trim_start(s))
}

/// Whether `c` has the Unicode property White_Space.
pub fn char_is_whitespace(c: char) -> (b: bool)
    ensures
        b == is_whitespace(c),
{
    ('\u{9}' <= c && c <= '\u{d}') || c == ' ' || c == '\u{85}' || c == '\u{a0}' || c == '\u{1680}'
        || ('\u{2000}' <= c && c <= '\u{200a}') || c == '\u{2028}' || c == '\u{2029}' || c
        == '\u{202f}' || c == '\u{205f}' || c == '\u{3000}'
}

/// Where the leading whitespace of `s` ends at `k`, `trim_start` keeps what follows `k`.
pub proof fn lemma_trim_start_at(s: Seq<char>, k: int)
    requires
        0 <= k <= s.len(),
        forall|i: int| 0 <= i < k ==> is_whitespace(s[i]),
        k == s.len() || !is_whitespace(s[k]),
    ensures
        trim_start(s) == s.subrange(k, s.len() as int),
    decreases k,
{
    if k == 0 {
        assert(s.subrange(0, s.len() as int) =~= s);
    } else {
        let rest = s.drop_first();
        assert forall|i: int| 0 <= i < k - 1 implies is_whitespace(rest[i]) by {
            assert(rest[i] == s[i + 1]);
        }
        lemma_trim_start_at(rest, k - 1);
        assert(rest.subrange(k - 1, rest.len() as int) =~= s.subrange(k, s.len() as int));
    }
}

/// Where the trailing whitespace of `s` starts at `k`, `trim_end` keeps what precedes `k`.
pub proof fn lemma_trim_end_at(s: Seq<char>, k: int)
    requires
        0 <= k <= s.len(),
        forall|i: int| k <= i < s.len() ==> is_whitespace(s[i]),
        k == 0 || !is_whitespace(s[k - 1]),
    ensures
        trim_end(s) == s.subrange(0, k),
    decreases s.len() - k,
{
    if k == s.len() {
        assert(s.subrange(0, k) =~= s);
    } else {
        let rest = s.drop_last();
        lemma_trim_end_at(rest, k);
        assert(rest.subrange(0, k) =~= s.subrange(0, k));
    }
}

/// A copy of `s` without its leading and trailing whitespace.
pub fn trim(s: &str) -> (out: String)
    ensures
        out@ == trimmed(s@),
{
    let len = s.unicode_len();
    let mut start: usize = 0;
    let mut end: usize = 0;
    let mut i: usize = 0;
    for c in it: s.chars()
        invariant
            it.seq() == s@,
            i == it.index(),
            len == s@.len(),
            start <= end <= i,
            forall|k: int| 0 <= k < start ==> is_whitespace(s@[k]),
            forall|k: int| end <= k < i ==> is_whitespace(s@[k]),
            end == 0 ==> start == 0,
            end > 0 ==> start < end && !is_whitespace(s@[start as int]) && !is_whitespace(
                s@[end - 1],
            ),
    {
        if !char_is_whitespace(c) {
            if end == 0 {
                start = i;
            }
            end = i + 1;
        }
        i = i + 1;
    }
    proof {
        if end == 0 {
            lemma_trim_start_at(s@, len as int);
            assert(s@.subrange(len as int, len as int) =~= Seq::<char>::empty());
        } else {
            lemma_trim_start_at(s@, start as int);
            let tail = s@.subrange(start as int, len as int);
            lemma_trim_end_at(tail, end - start);
            assert(tail.subrange(0, end - start) =~= s@.subrange(start as int, end as int));
        }
    }
    if end == 0 {
        String::new()
    } else {
        s.substring_char(start, end).to_owned()
    }
}

/// Whether `s` holds the character U+0000.
pub open spec fn has_nul(s: Seq<char>) -> bool {
    s.contains('\0')
}

/// The C string that carries `s`: its UTF-8 bytes and the terminating zero.
pub open spec fn c_string(s: Seq<char>) -> Seq<u8> {
    encode_utf8(s).push(0u8)
}

/// What a string getter of the native library stands for: nothing where it gave a null
/// pointer or an empty string, else the lossy decoding of the bytes before the terminator.
pub open spec fn native_text(c_str: Option<Seq<u8>>) -> Option<Seq<char>> {
    match c_str {
        Some(bytes) => if bytes.len() == 0 {
            None
        } else {
            Some(decoded_text(bytes))
        },
        None => None,
    }
}

/// The text of a tag that every track has: empty where the native getter gave nothing.
pub open spec fn native_text_or_empty(c_str: Option<Seq<u8>>) -> Seq<char> {
    match native_text(c_str) {
        Some(text) => text,
        None => Seq::empty(),
    }
}

/// The UTF-8 encoding of a character holds a zero byte only where the character is U+0000.
pub proof fn lemma_encode_scalar_nul(c: char)
    ensures
        encode_scalar(c as u32).contains(0u8) <==> c == '\0',
{
    let v = c as u32;
    let enc = encode_scalar(v);
    char_is_scalar(c);
    assert(forall|x: u8| #![auto] (0xC0u8 | x) != 0u8 && (0xE0u8 | x) != 0u8 && (0xF0u8 | x) != 0u8
        && (0x80u8 | x) != 0u8) by (bit_vector);
    if has_width_1_encoding(v) {
        assert(((v & 0x7F) as u8 == 0u8) <==> v == 0) by (bit_vector)
            requires
                v <= 0x7F,
        ;
        assert(enc[0] == leading_byte_width_1(v));
        if c == '\0' {
            assert(enc[0] == 0u8);
        }
    }
}

/// The UTF-8 encoding of a text holds a zero byte exactly where the text holds U+0000.
pub proof fn lemma_encode_utf8_nul(s: Seq<char>)
    ensures
        encode_utf8(s).contains(0u8) <==> has_nul(s),
    decreases s.len(),
{
    if s.len() > 0 {
        let head = encode_scalar(s[0] as u32);
        let tail = encode_utf8(s.drop_first());
        lemma_encode_scalar_nul(s[0]);
        lemma_encode_utf8_nul(s.drop_first());
        if has_nul(s) {
            let i = choose|i: int| 0 <= i < s.len() && s[i] == '\0';
            if i == 0 {
                let j = choose|j: int| 0 <= j < head.len() && head[j] == 0u8;
                assert((head + tail)[j] == 0u8);
            } else {
                assert(s.drop_first()[i - 1] == '\0');
                let j = choose|j: int| 0 <= j < tail.len() && tail[j] == 0u8;
                assert((head + tail)[head.len() + j] == 0u8);
            }
        }
        if (head + tail).contains(0u8) {
            let j = choose|j: int| 0 <= j < (head + tail).len() && (head + tail)[j] == 0u8;
            if j < head.len() {
                assert(head[j] == 0u8);
                assert(s[0] == '\0');
            } else {
                assert(tail[j - head.len()] == 0u8);
                let i = choose|i: int|
                    0 <= i < s.drop_first().len() && s.drop_first()[i] == '\0';
                assert(s[i + 1] == '\0');
            }
        }
    }
}

/// A text that was written as a tag reads back unchanged: decoding is lossy only on
/// bytes that no text encodes.
pub proof fn lemma_written_text_reads_back(s: Seq<char>)
    ensures
        native_text_or_empty(Some(encode_utf8(s))) == s,
{
    if s.len() == 0 {
        assert(s =~= Seq::<char>::empty());
    } else {
        assert(encode_scalar(s[0] as u32).len() > 0);
        encode_utf8_valid_utf8(s);
        encode_utf8_decode_utf8(s);
    }
}

/// Decodes what a string getter of the native library returned, after the copy: `None`
/// stands for a null pointer, `Some` holds the bytes before the terminator. Decoding is
/// lossy and never fails. A text that comes back is never empty.
pub fn c_str_to_str(c_str: &Option<Vec<u8>>) -> (text: Option<String>)
    ensures
        text is Some <==> native_text(c_str_view(*c_str)) is Some,
        text matches Some(t) ==> native_text(c_str_view(*c_str)) == Some(t@) && t@.len() > 0,
{
    match c_str {
        None => None,
        Some(bytes) => {
            if bytes.len() == 0 {
                None
            } else {
                Some(from_utf8_lossy(bytes.as_slice()))
            }
        },
    }
}

/// Encodes `text` as the C string that a native setter takes. Fails with
/// `EmbeddedNulError` exactly where the text holds U+0000, which no C string can carry.
pub fn to_c_string(text: &str) -> (c_str: Result<Vec<u8>, FileError>)
    ensures
        c_str is Err <==> has_nul(text@),
        c_str matches Err(e) ==> e is EmbeddedNulError,
        c_str matches Ok(bytes) ==> bytes@ == c_string(text@),
{
    let bytes = text.as_bytes();
    proof {
        lemma_encode_utf8_nul(text@);
    }
    let mut i: usize = 0;
    while i < bytes.len()
        invariant
            i <= bytes@.len(),
            bytes@ == encode_utf8(text@),
            bytes@.contains(0u8) <==> has_nul(text@),
            forall|k: int| 0 <= k < i ==> bytes@[k] != 0u8,
        decreases bytes@.len() - i,
    {
        if bytes[i] == 0 {
            assert(bytes@[i as int] == 0u8);
            return Err(FileError::EmbeddedNulError);
        }
        i = i + 1;
    }
    let mut c_str = slice_to_vec(bytes);
    c_str.push(0u8);
    Ok(c_str)
}

} // verus!
