//! Text as the rest of the crate sees it: a sequence of characters, with a
//! length in UTF-8 bytes, and the few character classes that the catalog rules
//! are written in.

use vstd::prelude::*;
use vstd::utf8::*;

verus! {

/// `String::push` appends one character to the text and changes nothing else.
pub assume_specification[ std::string::String::push ](s: &mut std::string::String, ch: char)
    ensures
        final(s)@ == old(s)@.push(ch),
;

/// What `String::from_utf8_lossy` makes of the bytes.
pub uninterp spec fn utf8_lossy(bytes: Seq<u8>) -> Seq<char>;

/// Wraps `String::from_utf8_lossy`: bytes that are valid UTF-8 come back as the
/// text they encode; what stands in the place of invalid parts is left to the
/// name `utf8_lossy`.
#[verifier::external_body]
pub(crate) fn lossy_text(bytes: &[u8]) -> (text: String)
    ensures
        text@ == utf8_lossy(bytes@),
        valid_utf8(bytes@) ==> text@ == decode_utf8(bytes@),
{
    String::from_utf8_lossy(bytes).into_owned()
}

/// The text that the bytes encode in UTF-8, where they encode one.
pub open spec fn utf8_text(bytes: Seq<u8>) -> Option<Seq<char>> {
    if valid_utf8(bytes) {
        Some(decode_utf8(bytes))
    } else {
        None
    }
}

/// Wraps `String::from_utf8`: there is a text exactly when the bytes are valid
/// UTF-8, and it is the one they encode.
#[verifier::external_body]
pub(crate) fn text_from_utf8(bytes: Vec<u8>) -> (text: Option<String>)
    ensures
        viewed(text) == utf8_text(bytes@),
{
    String::from_utf8(bytes).ok()
}

/// The text that may be there, as a sequence of characters.
pub open spec fn viewed(text: Option<String>) -> Option<Seq<char>> {
    match text {
        Some(t) => Some(t@),
        None => None,
    }
}

/// The length of a text in UTF-8 bytes.
pub open spec fn byte_count(text: Seq<char>) -> nat {
    encode_utf8(text).len()
}

/// A text is as long, in bytes, as the bytes that encode it.
pub(crate) proof fn lemma_text_bytes(bytes: Seq<u8>)
    ensures
        utf8_text(bytes) matches Some(text) ==> byte_count(text) == bytes.len(),
{
    if valid_utf8(bytes) {
        decode_utf8_encode_utf8(bytes);
    }
}

/// The length of `text` in UTF-8 bytes.
pub fn byte_len(text: &str) -> (len: usize)
    ensures
        len == byte_count(text@),
{
    text.as_bytes().len()
}

/// The characters of `text`, in order.
pub fn chars_of(text: &str) -> (chars: Vec<char>)
    ensures
        chars@ == text@,
{
    let mut chars: Vec<char> = Vec::new();
    for c in it: text.chars()
        invariant
            it.seq() == text@,
            chars@ == it.seq().take(it.index() as int),
    {
        chars.push(c);
    }
    chars
}

/// Whether two texts are the same.
pub fn same_text(a: &str, b: &str) -> (same: bool)
    ensures
        same == (a@ == b@),
{
    let x = a.as_bytes();
    let y = b.as_bytes();
    proof {
        encode_utf8_decode_utf8(a@);
        encode_utf8_decode_utf8(b@);
    }
    if x.len() != y.len() {
        return false;
    }
    let mut i: usize = 0;
    while i < x.len()
        invariant
            i <= x@.len() == y@.len(),
            x@ == encode_utf8(a@),
            y@ == encode_utf8(b@),
            forall|j: int| 0 <= j < i ==> x@[j] == y@[j],
        decreases x@.len() - i,
    {
        if x[i] != y[i] {
            return false;
        }
        i += 1;
    }
    assert(x@ =~= y@);
    true
}

/// Unicode white space.
pub open spec fn is_white_space(c: char) -> bool {
    ||| '\u{9}' <= c <= '\u{d}'
    ||| c == '\u{20}'
    ||| c == '\u{85}'
    ||| c == '\u{a0}'
    ||| c == '\u{1680}'
    ||| '\u{2000}' <= c <= '\u{200a}'
    ||| c == '\u{2028}'
    ||| c == '\u{2029}'
    ||| c == '\u{202f}'
    ||| c == '\u{205f}'
    ||| c == '\u{3000}'
}

fn white_space(c: char) -> (yes: bool)
    ensures
        yes == is_white_space(c),
{
    ('\u{9}' <= c && c <= '\u{d}') || c == '\u{20}' || c == '\u{85}' || c == '\u{a0}' || c
        == '\u{1680}' || ('\u{2000}' <= c && c <= '\u{200a}') || c == '\u{2028}' || c == '\u{2029}'
        || c == '\u{202f}' || c == '\u{205f}' || c == '\u{3000}'
}

/// A Unicode control character.
pub open spec fn is_control(c: char) -> bool {
    c <= '\u{1f}' || '\u{7f}' <= c <= '\u{9f}'
}

/// Neither end of the text is white space.
pub open spec fn is_trimmed(text: Seq<char>) -> bool {
    text.len() > 0 ==> !is_white_space(text.first()) && !is_white_space(text.last())
}

/// The text holds nothing but white space.
pub open spec fn is_blank(text: Seq<char>) -> bool {
    forall|i: int| 0 <= i < text.len() ==> is_white_space(#[trigger] text[i])
}

/// The text stays on one line: no control character, and neither of Unicode's
/// line and paragraph separators.
pub open spec fn is_single_line(text: Seq<char>) -> bool {
    forall|i: int| 0 <= i < text.len() ==> stays_on_line(#[trigger] text[i])
}

/// The character neither controls nor ends a line.
pub open spec fn stays_on_line(c: char) -> bool {
    !is_control(c) && c != '\u{2028}' && c != '\u{2029}'
}

/// An ASCII letter or digit, or one of `-`, `_`, `.`, `:` and `/`.
pub open spec fn is_token_char(c: char) -> bool {
    ||| 'a' <= c <= 'z'
    ||| 'A' <= c <= 'Z'
    ||| '0' <= c <= '9'
    ||| c == '-'
    ||| c == '_'
    ||| c == '.'
    ||| c == ':'
    ||| c == '/'
}

/// Every character of the text is a token character.
pub open spec fn is_token(text: Seq<char>) -> bool {
    forall|i: int| 0 <= i < text.len() ==> is_token_char(#[trigger] text[i])
}

/// Whether neither end of `text` is white space.
pub fn trimmed(text: &str) -> (yes: bool)
    ensures
        yes == is_trimmed(text@),
{
    let chars = chars_of(text);
    let n: usize = chars.len();
    n == 0 || (!white_space(chars[0]) && !white_space(chars[n - 1]))
}

/// Whether `text` holds nothing but white space.
pub fn blank(text: &str) -> (yes: bool)
    ensures
        yes == is_blank(text@),
{
    let chars = chars_of(text);
    let mut i: usize = 0;
    while i < chars.len()
        invariant
            i <= chars@.len(),
            chars@ == text@,
            forall|j: int| 0 <= j < i ==> is_white_space(#[trigger] text@[j]),
        decreases chars@.len() - i,
    {
        if !white_space(chars[i]) {
            return false;
        }
        i += 1;
    }
    true
}

/// Whether `text` stays on one line.
pub fn single_line(text: &str) -> (yes: bool)
    ensures
        yes == is_single_line(text@),
{
    let chars = chars_of(text);
    let mut i: usize = 0;
    while i < chars.len()
        invariant
            i <= chars@.len(),
            chars@ == text@,
            forall|j: int| 0 <= j < i ==> stays_on_line(#[trigger] text@[j]),
        decreases chars@.len() - i,
    {
        let c = chars[i];
        if c <= '\u{1f}' || ('\u{7f}' <= c && c <= '\u{9f}') || c == '\u{2028}' || c == '\u{2029}' {
            assert(!stays_on_line(text@[i as int]));
            return false;
        }
        i += 1;
    }
    true
}

/// Whether `text` is made of token characters only.
pub fn token(text: &str) -> (yes: bool)
    ensures
        yes == is_token(text@),
{
    let chars = chars_of(text);
    let mut i: usize = 0;
    while i < chars.len()
        invariant
            i <= chars@.len(),
            chars@ == text@,
            forall|j: int| 0 <= j < i ==> is_token_char(#[trigger] text@[j]),
        decreases chars@.len() - i,
    {
        let c = chars[i];
        if !(('a' <= c && c <= 'z') || ('A' <= c && c <= 'Z') || ('0' <= c && c <= '9') || c == '-'
            || c == '_' || c == '.' || c == ':' || c == '/') {
            assert(!is_token_char(text@[i as int]));
            return false;
        }
        i += 1;
    }
    true
}

/// The character for one decimal digit.
pub open spec fn digit(d: nat) -> char {
    (48 + d) as char
}

/// The decimal numeral of a number, without leading zeros.
pub open spec fn decimal(n: nat) -> Seq<char>
    decreases n,
{
    if n < 10 {
        seq![digit(n)]
    } else {
        decimal(n / 10).push(digit(n % 10))
    }
}

/// The decimal numeral of `n`.
pub fn decimal_text(n: u64) -> (text: String)
    ensures
        text@ == decimal(n as nat),
    decreases n,
{
    let mut text = if n < 10 {
        String::new()
    } else {
        decimal_text(n / 10)
    };
    text.push((48 + (n % 10) as u8) as char);
    assert(text@ =~= decimal(n as nat));
    text
}

/// The character with an ASCII capital letter made small.
pub open spec fn ascii_lower(c: char) -> char {
    if 'A' <= c <= 'Z' {
        (c as u32 + 32) as char
    } else {
        c
    }
}

/// The text with every ASCII capital letter made small.
pub open spec fn lowercase(text: Seq<char>) -> Seq<char> {
    text.map_values(|c: char| ascii_lower(c))
}

/// `text` with every ASCII capital letter made small.
pub fn ascii_lowercase(text: &str) -> (lower: String)
    ensures
        lower@ == lowercase(text@),
{
    let chars = chars_of(text);
    let mut lower = String::new();
    let mut i: usize = 0;
    while i < chars.len()
        invariant
            i <= chars@.len(),
            chars@ == text@,
            lower@ == lowercase(text@.take(i as int)),
        decreases chars@.len() - i,
    {
        let c = chars[i];
        if 'A' <= c && c <= 'Z' {
            lower.push((c as u8 + 32) as char);
        } else {
            lower.push(c);
        }
        assert(lower@ =~= lowercase(text@.take(i + 1)));
        i += 1;
    }
    assert(text@.take(i as int) =~= text@);
    lower
}

} // verus!
