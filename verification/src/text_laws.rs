//! What holds of the text functions, in code points and in numbers.

use vstd::prelude::*;
use vstd::utf8::{
    decode_utf8_encode_utf8, encode_utf8_decode_utf8, encode_utf8_valid_utf8,
};

use crate::text;

verus! {

/// The code point of a character that Unicode counts as white space.
pub open spec fn is_space_code(code: int) -> bool {
    ||| 9 <= code <= 13
    ||| code == 32
    ||| code == 133
    ||| code == 160
    ||| code == 5760
    ||| 8192 <= code <= 8202
    ||| code == 8232
    ||| code == 8233
    ||| code == 8239
    ||| code == 8287
    ||| code == 12288
}

/// The code point of a character that may stand in an id.
pub open spec fn is_id_code(code: int) -> bool {
    ||| 48 <= code <= 57
    ||| 65 <= code <= 90
    ||| 97 <= code <= 122
    ||| code == 45
    ||| code == 46
    ||| code == 47
    ||| code == 58
    ||| code == 95
}

/// The code point of a character that does not leave its line.
pub open spec fn is_line_code(code: int) -> bool {
    &&& 32 <= code
    &&& !(127 <= code <= 159)
    &&& code != 8232
    &&& code != 8233
}

/// A text is blank exactly when each of its characters is white space.
pub proof fn blank_texts_are_all_space(t: &str, yes: bool)
    requires
        call_ensures(text::blank, (t,), yes),
    ensures
        yes <==> forall|i: int| 0 <= i < t@.len() ==> is_space_code(#[trigger] t@[i] as int),
{
    if yes {
        assert forall|i: int| 0 <= i < t@.len() implies is_space_code(
            #[trigger] t@[i] as int,
        ) by {
            assert(text::is_white_space(t@[i]));
        }
    }
}

/// A text is trimmed exactly when it is empty or has white space at neither end.
pub proof fn trimmed_texts_have_no_outer_space(t: &str, yes: bool)
    requires
        call_ensures(text::trimmed, (t,), yes),
    ensures
        yes <==> t@.len() == 0 || (!is_space_code(t@[0] as int) && !is_space_code(
            t@[t@.len() - 1] as int,
        )),
{
}

/// A text is on one line exactly when none of its characters leaves the line.
pub proof fn single_lines_are_checked_throughout(t: &str, yes: bool)
    requires
        call_ensures(text::single_line, (t,), yes),
    ensures
        yes <==> forall|i: int| 0 <= i < t@.len() ==> is_line_code(#[trigger] t@[i] as int),
{
    if yes {
        assert forall|i: int| 0 <= i < t@.len() implies is_line_code(#[trigger] t@[i] as int) by {
            assert(text::stays_on_line(t@[i]));
        }
    }
}

/// A text is a token exactly when each of its characters may stand in an id.
pub proof fn tokens_are_checked_throughout(t: &str, yes: bool)
    requires
        call_ensures(text::token, (t,), yes),
    ensures
        yes <==> forall|i: int| 0 <= i < t@.len() ==> is_id_code(#[trigger] t@[i] as int),
{
    if yes {
        assert forall|i: int| 0 <= i < t@.len() implies is_id_code(#[trigger] t@[i] as int) by {
            assert(text::is_token_char(t@[i]));
        }
    }
}

/// The length of a text is the number of bytes of its UTF-8 encoding.
pub proof fn lengths_count_encoded_bytes(t: &str, len: usize)
    requires
        call_ensures(text::byte_len, (t,), len),
    ensures
        len == vstd::utf8::encode_utf8(t@).len(),
{
}

/// The number that a decimal numeral stands for.
pub open spec fn numeral_value(numeral: Seq<char>) -> int
    decreases numeral.len(),
{
    if numeral.len() == 0 {
        0
    } else {
        numeral_value(numeral.drop_last()) * 10 + (numeral.last() as int - 48)
    }
}

/// The numeral of a number is made of digits, stands for the number, and has no
/// zero in front.
pub proof fn numerals_stand_for_their_number(n: u64, numeral: String)
    requires
        call_ensures(text::decimal_text, (n,), numeral),
    ensures
        numeral_value(numeral@) == n,
        forall|i: int| 0 <= i < numeral@.len() ==> 48 <= #[trigger] numeral@[i] as int <= 57,
        numeral@.len() > 0,
        numeral@[0] == '0' ==> numeral@.len() == 1,
{
    lemma_decimal(n as nat);
}

pub(crate) proof fn lemma_decimal(n: nat)
    ensures
        numeral_value(text::decimal(n)) == n,
        forall|i: int|
            0 <= i < text::decimal(n).len() ==> 48 <= #[trigger] text::decimal(n)[i] as int <= 57,
        text::decimal(n).len() > 0,
        n > 0 ==> text::decimal(n)[0] != '0',
        n < 10 ==> text::decimal(n).len() == 1,
    decreases n,
{
    let numeral = text::decimal(n);
    if n < 10 {
        assert(numeral.drop_last() =~= Seq::empty());
        reveal_with_fuel(numeral_value, 2);
    } else {
        lemma_decimal(n / 10);
        let front = text::decimal(n / 10);
        assert(numeral.drop_last() =~= front);
        assert forall|i: int| 0 <= i < numeral.len() implies 48 <= #[trigger] numeral[i] as int
            <= 57 by {
            if i < front.len() {
                assert(numeral[i] == front[i]);
            }
        }
        assert(numeral[0] == front[0]);
    }
}

/// Two texts are the same but for the case of their ASCII letters.
pub open spec fn same_but_for_case(a: Seq<char>, b: Seq<char>) -> bool {
    &&& a.len() == b.len()
    &&& forall|i: int|
        #![trigger a[i]]
        #![trigger b[i]]
        0 <= i < a.len() ==> {
            ||| a[i] == b[i]
            ||| 65 <= a[i] as int <= 90 && b[i] as int == a[i] as int + 32
            ||| 65 <= b[i] as int <= 90 && a[i] as int == b[i] as int + 32
        }
}

/// The small form of a text differs from it in the case of letters alone and
/// holds no capital letter.
pub proof fn small_letters_replace_capitals(t: &str, lower: String)
    requires
        call_ensures(text::ascii_lowercase, (t,), lower),
    ensures
        same_but_for_case(t@, lower@),
        forall|i: int| 0 <= i < lower@.len() ==> !(65 <= #[trigger] lower@[i] as int <= 90),
{
    assert forall|i: int| 0 <= i < lower@.len() implies !(65 <= #[trigger] lower@[i] as int
        <= 90) by {
        assert(lower@[i] == text::ascii_lower(t@[i]));
    }
    assert forall|i: int|
        #![trigger t@[i]]
        #![trigger lower@[i]]
        0 <= i < t@.len() implies {
        ||| t@[i] == lower@[i]
        ||| 65 <= t@[i] as int <= 90 && lower@[i] as int == t@[i] as int + 32
        ||| 65 <= lower@[i] as int <= 90 && t@[i] as int == lower@[i] as int + 32
    } by {
        assert(lower@[i] == text::ascii_lower(t@[i]));
    }
}

/// Texts have the same small form exactly when they differ in case alone.
pub proof fn small_forms_compare_without_case(a: Seq<char>, b: Seq<char>)
    ensures
        text::lowercase(a) == text::lowercase(b) <==> same_but_for_case(a, b),
{
    let x = text::lowercase(a);
    let y = text::lowercase(b);
    assert(x.len() == a.len() && y.len() == b.len());
    if x == y {
        assert forall|i: int|
            #![trigger a[i]]
            #![trigger b[i]]
            0 <= i < a.len() implies {
            ||| a[i] == b[i]
            ||| 65 <= a[i] as int <= 90 && b[i] as int == a[i] as int + 32
            ||| 65 <= b[i] as int <= 90 && a[i] as int == b[i] as int + 32
        } by {
            assert(x[i] == text::ascii_lower(a[i]));
            assert(y[i] == text::ascii_lower(b[i]));
        }
    }
    if same_but_for_case(a, b) {
        assert forall|i: int| 0 <= i < x.len() implies x[i] == y[i] by {
            assert(x[i] == text::ascii_lower(a[i]));
            assert(y[i] == text::ascii_lower(b[i]));
        }
        assert(x =~= y);
    }
}

/// Bytes have a text exactly when they are the UTF-8 encoding of that text.
pub proof fn texts_are_what_bytes_encode(bytes: Seq<u8>, t: Seq<char>)
    ensures
        text::utf8_text(bytes) == Some(t) <==> bytes == vstd::utf8::encode_utf8(t),
{
    encode_utf8_valid_utf8(t);
    encode_utf8_decode_utf8(t);
    if vstd::utf8::valid_utf8(bytes) {
        decode_utf8_encode_utf8(bytes);
    }
}

} // verus!
