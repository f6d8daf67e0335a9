//! Numerals, hexadecimal text and word splitting, each with the mathematical
//! function that it computes.

use vstd::prelude::*;
use vstd::string::StrSliceExecFns;
use vstd::string::StringExecFns;
use vstd::utf8::decode_utf8;
use vstd::utf8::valid_utf8;

verus! {

/// The character that writes the digit `d`, for `d` below sixteen, in lower case.
pub open spec fn digit_char(d: int) -> char {
    if d < 10 {
        (48 + d) as u8 as char
    } else {
        (87 + d) as u8 as char
    }
}

/// The decimal numeral of `n`, without sign or leading zeros.
pub open spec fn decimal(n: nat) -> Seq<char>
    decreases n,
{
    if n < 10 {
        seq![digit_char(n as int)]
    } else {
        decimal(n / 10).push(digit_char((n % 10) as int))
    }
}

/// The decimal numeral of `n`, with a minus sign in front of a negative one.
pub open spec fn signed_decimal(n: int) -> Seq<char> {
    if n < 0 {
        seq!['-'] + decimal((-n) as nat)
    } else {
        decimal(n as nat)
    }
}

/// A byte in lower-case hexadecimal: two digits, the high one first.
pub open spec fn hex_byte(b: u8) -> Seq<char> {
    seq![digit_char(b as int / 16), digit_char(b as int % 16)]
}

/// The bytes in lower-case hexadecimal, two digits each, one byte after
/// another.
pub open spec fn hex(bytes: Seq<u8>) -> Seq<char>
    decreases bytes.len(),
{
    if bytes.len() == 0 {
        Seq::empty()
    } else {
        hex(bytes.drop_last()) + hex_byte(bytes.last())
    }
}

/// Whether `c` is one of the ten decimal digits.
pub open spec fn is_digit(c: char) -> bool {
    '0' <= c <= '9'
}

/// The number that a sequence of decimal digits writes.
pub open spec fn number(digits: Seq<char>) -> nat
    decreases digits.len(),
{
    if digits.len() == 0 {
        0
    } else {
        number(digits.drop_last()) * 10 + (digits.last() as u32 - 48) as nat
    }
}

/// The digits of an unsigned numeral: the text itself, or what follows a single
/// leading plus sign.
pub open spec fn numeral_digits(text: Seq<char>) -> Seq<char> {
    if text.len() > 0 && text[0] == '+' {
        text.drop_first()
    } else {
        text
    }
}

/// The number that `text` writes: an optional plus sign, then one or more
/// decimal digits and nothing else. Any other text writes no number.
pub open spec fn unsigned(text: Seq<char>) -> Option<nat> {
    let digits = numeral_digits(text);
    if digits.len() > 0 && (forall|i: int| 0 <= i < digits.len() ==> is_digit(#[trigger] digits[i])) {
        Some(number(digits))
    } else {
        None
    }
}

/// The characters of a string, in order.
pub fn chars_of(s: &str) -> (r: Vec<char>)
    ensures
        r@ == s@,
{
    let mut out: Vec<char> = Vec::new();
    for c in it: s.chars()
        invariant
            it.seq() == s@,
            out@ == s@.take(it.index()),
    {
        out.push(c);
    }
    out
}

fn digit_text(d: u8) -> (r: &'static str)
    requires
        d < 16,
    ensures
        r@ == seq![digit_char(d as int)],
{
    proof {
        reveal_strlit("0");
        reveal_strlit("1");
        reveal_strlit("2");
        reveal_strlit("3");
        reveal_strlit("4");
        reveal_strlit("5");
        reveal_strlit("6");
        reveal_strlit("7");
        reveal_strlit("8");
        reveal_strlit("9");
        reveal_strlit("a");
        reveal_strlit("b");
        reveal_strlit("c");
        reveal_strlit("d");
        reveal_strlit("e");
        reveal_strlit("f");
    }
    let r = match d {
        0 => "0",
        1 => "1",
        2 => "2",
        3 => "3",
        4 => "4",
        5 => "5",
        6 => "6",
        7 => "7",
        8 => "8",
        9 => "9",
        10 => "a",
        11 => "b",
        12 => "c",
        13 => "d",
        14 => "e",
        _ => "f",
    };
    assert(r@ =~= seq![digit_char(d as int)]);
    r
}

/// Writes `n` in decimal.
pub fn decimal_text(n: u128) -> (r: String)
    ensures
        r@ == decimal(n as nat),
    decreases n,
{
    if n < 10 {
        String::from_str(digit_text(n as u8))
    } else {
        let mut text = decimal_text(n / 10);
        text.append(digit_text((n % 10) as u8));
        text
    }
}

/// Writes `n` in decimal, with its sign where it is negative.
pub fn signed_decimal_text(n: i32) -> (r: String)
    ensures
        r@ == signed_decimal(n as int),
{
    if n < 0 {
        proof {
            reveal_strlit("-");
        }
        let magnitude: u128 = (-(n as i64)) as u128;
        let mut text = String::from_str("-");
        text.append(decimal_text(magnitude).as_str());
        assert(text@ =~= signed_decimal(n as int));
        text
    } else {
        decimal_text(n as u128)
    }
}

/// Writes the bytes in lower-case hexadecimal, two digits each.
pub fn hex_text(bytes: &[u8]) -> (r: String)
    ensures
        r@ == hex(bytes@),
{
    let mut text = String::new();
    let mut i: usize = 0;
    assert(bytes@.take(0) =~= Seq::<u8>::empty());
    while i < bytes.len()
        invariant
            i <= bytes.len(),
            text@ == hex(bytes@.take(i as int)),
        decreases bytes.len() - i,
    {
        let b: u8 = bytes[i];
        proof {
            let next = bytes@.take(i + 1);
            assert(next.drop_last() =~= bytes@.take(i as int));
            assert(next.last() == b);
        }
        text.append(digit_text(b / 16));
        text.append(digit_text(b % 16));
        assert(text@ =~= hex(bytes@.take(i + 1)));
        i = i + 1;
    }
    assert(bytes@.take(bytes.len() as int) =~= bytes@);
    text
}

/// A number is no smaller than the number that any prefix of its digits writes.
proof fn lemma_number_grows(digits: Seq<char>, k: int)
    requires
        0 <= k <= digits.len(),
        forall|i: int| 0 <= i < digits.len() ==> is_digit(#[trigger] digits[i]),
    ensures
        number(digits.take(k)) <= number(digits),
    decreases digits.len() - k,
{
    if k == digits.len() {
        assert(digits.take(k) =~= digits);
    } else {
        lemma_number_grows(digits, k + 1);
        let longer = digits.take(k + 1);
        assert(longer.drop_last() =~= digits.take(k));
    }
}

/// Reads an unsigned decimal numeral as `usize::from_str` does: the number that
/// the text writes, where it writes one that a `usize` can hold.
pub fn parse_index(text: &str) -> (r: Option<usize>)
    ensures
        r == match unsigned(text@) {
            Some(n) => if n <= usize::MAX { Some(n as usize) } else { None },
            None => None,
        },
{
    let chars = chars_of(text);
    let start: usize = if chars.len() > 0 && chars[0] == '+' { 1 } else { 0 };
    let ghost digits = numeral_digits(text@);
    assert(digits =~= chars@.skip(start as int));
    if start == chars.len() {
        return None;
    }
    let mut value: usize = 0;
    let mut i: usize = start;
    assert(digits.take(0) =~= Seq::<char>::empty());
    while i < chars.len()
        invariant
            start <= i <= chars.len(),
            digits == chars@.skip(start as int),
            digits == numeral_digits(text@),
            forall|j: int| 0 <= j < i - start ==> is_digit(#[trigger] digits[j]),
            value == number(digits.take(i - start)),
        decreases chars.len() - i,
    {
        let c: char = chars[i];
        assert(c == digits[i - start]);
        if !('0' <= c && c <= '9') {
            assert(!is_digit(digits[i - start]));
            return None;
        }
        let d: usize = (c as u32 - 48) as usize;
        proof {
            let longer = digits.take(i - start + 1);
            assert(longer.drop_last() =~= digits.take(i - start));
            assert(longer.last() == c);
            assert(number(longer) == value * 10 + d);
        }
        let grown = match value.checked_mul(10) {
            Some(tens) => tens.checked_add(d),
            None => None,
        };
        match grown {
            Some(v) => {
                value = v;
            },
            None => {
                proof {
                    if forall|j: int| 0 <= j < digits.len() ==> is_digit(#[trigger] digits[j]) {
                        lemma_number_grows(digits, i - start + 1);
                    }
                }
                return None;
            },
        }
        i = i + 1;
    }
    assert(digits.take(digits.len() as int) =~= digits);
    Some(value)
}

/// Whether the character is white space: one of the twenty-five that have
/// the Unicode property White_Space, which are those that `char::is_whitespace`
/// holds of. They are the tab, the line feed, the vertical tab, the form feed,
/// the carriage return and the space; the next-line character and the
/// no-break space; and the spaces and separators above them.
pub open spec fn white_space(c: char) -> bool {
    let n = c as u32;
    ||| 0x0009 <= n <= 0x000d
    ||| n == 0x0020
    ||| n == 0x0085
    ||| n == 0x00a0
    ||| n == 0x1680
    ||| 0x2000 <= n <= 0x200a
    ||| n == 0x2028
    ||| n == 0x2029
    ||| n == 0x202f
    ||| n == 0x205f
    ||| n == 0x3000
}

/// Whether the character is white space.
pub fn is_white_space(c: char) -> (r: bool)
    ensures
        r == white_space(c),
{
    let n: u32 = c as u32;
    (0x0009 <= n && n <= 0x000d) || n == 0x0020 || n == 0x0085 || n == 0x00a0 || n == 0x1680 || (
    0x2000 <= n && n <= 0x200a) || n == 0x2028 || n == 0x2029 || n == 0x202f || n == 0x205f || n
        == 0x3000
}

/// A space parts two words: the text `a b` is the words `a` and `b`.
pub proof fn space_parts_words()
    ensures
        words(seq!['a', ' ', 'b']) == seq![seq!['a'], seq!['b']],
{
    let text = seq!['a', ' ', 'b'];
    let second = seq![' ', 'b'];
    let last = seq!['b'];
    reveal_with_fuel(words, 4);
    reveal_with_fuel(word_len, 3);
    assert(text.drop_first() =~= second);
    assert(second.drop_first() =~= last);
    assert(last.drop_first() =~= Seq::<char>::empty());
    assert(word_len(last) == 1);
    assert(word_len(text) == 1);
    assert(text.take(1) =~= seq!['a']);
    assert(text.skip(1) =~= second);
    assert(last.take(1) =~= last);
    assert(last.skip(1) =~= Seq::<char>::empty());
    assert(words(last) =~= seq![seq!['b']]);
    assert(words(second) =~= seq![seq!['b']]);
    assert(words(text) =~= seq![seq!['a'], seq!['b']]);
}

/// The length of the longest prefix of `s` that holds no white space.
pub open spec fn word_len(s: Seq<char>) -> nat
    decreases s.len(),
{
    if s.len() == 0 || white_space(s[0]) {
        0
    } else {
        1 + word_len(s.drop_first())
    }
}

/// The words of `s`: its maximal runs of characters that are not white space,
/// in order. White space at either end gives no empty word.
pub open spec fn words(s: Seq<char>) -> Seq<Seq<char>>
    decreases s.len(),
{
    if s.len() == 0 {
        Seq::empty()
    } else if white_space(s[0]) {
        words(s.drop_first())
    } else {
        proof {
            lemma_word_len_bound(s);
        }
        seq![s.take(word_len(s) as int)] + words(s.skip(word_len(s) as int))
    }
}

/// The first word is no longer than the text, and is not empty where the text
/// starts with a character that is not white space.
pub proof fn lemma_word_len_bound(s: Seq<char>)
    ensures
        word_len(s) <= s.len(),
        s.len() > 0 && !white_space(s[0]) ==> word_len(s) >= 1,
    decreases s.len(),
{
    if s.len() > 0 && !white_space(s[0]) {
        lemma_word_len_bound(s.drop_first());
    }
}

/// A run of `k` characters without white space, followed by the end or by
/// white space, is the first word.
proof fn lemma_word_len_is(s: Seq<char>, k: int)
    requires
        0 <= k <= s.len(),
        forall|j: int| 0 <= j < k ==> !white_space(#[trigger] s[j]),
        k == s.len() || white_space(s[k]),
    ensures
        word_len(s) == k,
    decreases k,
{
    if k > 0 {
        let rest = s.drop_first();
        assert forall|j: int| 0 <= j < k - 1 implies !white_space(#[trigger] rest[j]) by {
            assert(rest[j] == s[j + 1]);
        }
        lemma_word_len_is(rest, k - 1);
    }
}

/// Splits text at white space, as `str::split_whitespace` does.
pub fn split_words(text: &str) -> (r: Vec<String>)
    ensures
        r.deep_view() == words(text@),
{
    let chars = chars_of(text);
    let mut out: Vec<String> = Vec::new();
    let mut i: usize = 0;
    assert(text@.skip(0) =~= text@);
    assert(out.deep_view() =~= Seq::<Seq<char>>::empty());
    while i < chars.len()
        invariant
            i <= chars.len(),
            chars@ == text@,
            words(text@) == out.deep_view() + words(text@.skip(i as int)),
        decreases chars.len() - i,
    {
        let ghost rest = text@.skip(i as int);
        assert(rest[0] == chars@[i as int]);
        if is_white_space(chars[i]) {
            assert(rest.drop_first() =~= text@.skip(i + 1));
            i = i + 1;
        } else {
            let mut j: usize = i + 1;
            while j < chars.len() && !is_white_space(chars[j])
                invariant
                    i < j <= chars.len(),
                    chars@ == text@,
                    forall|k: int| i <= k < j ==> !white_space(#[trigger] chars@[k]),
                decreases chars.len() - j,
            {
                j = j + 1;
            }
            proof {
                assert forall|k: int| 0 <= k < j - i implies !white_space(#[trigger] rest[k]) by {
                    assert(rest[k] == chars@[i + k]);
                }
                if j < chars.len() {
                    assert(rest[j - i] == chars@[j as int]);
                }
                lemma_word_len_is(rest, j - i);
                assert(rest.take(j - i) =~= text@.subrange(i as int, j as int));
                assert(rest.skip(j - i) =~= text@.skip(j as int));
            }
            let word = text.substring_char(i, j).to_owned();
            let ghost before = out.deep_view();
            out.push(word);
            assert(out.deep_view() =~= before.push(word@));
            assert(before.push(word@) + words(text@.skip(j as int)) =~= before + (seq![word@]
                + words(text@.skip(j as int))));
            i = j;
        }
    }
    assert(text@.skip(chars.len() as int) =~= Seq::<char>::empty());
    assert(out.deep_view() + Seq::<Seq<char>>::empty() =~= out.deep_view());
    out
}

/// What `String::from_utf8_lossy` makes of the bytes: their text, with the
/// replacement character in the place of each malformed sequence.
pub uninterp spec fn lossy(bytes: Seq<u8>) -> Seq<char>;

/// `String::from_utf8_lossy`. Well-formed UTF-8 is decoded as it stands; of
/// other bytes the contract only names the result.
#[verifier::external_body]
pub(crate) fn lossy_text(bytes: &[u8]) -> (r: String)
    ensures
        r@ == lossy(bytes@),
        valid_utf8(bytes@) ==> r@ == decode_utf8(bytes@),
{
    String::from_utf8_lossy(bytes).into_owned()
}

/// `String::from_utf8`: the text that the bytes encode, where they are
/// well-formed UTF-8, and nothing where they are not.
#[verifier::external_body]
pub(crate) fn utf8_text(bytes: Vec<u8>) -> (r: Option<String>)
    ensures
        r.deep_view() == if valid_utf8(bytes@) {
            Some(decode_utf8(bytes@))
        } else {
            None
        },
{
    String::from_utf8(bytes).ok()
}

} // verus!
