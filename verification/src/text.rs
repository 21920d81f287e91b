//! Decimal numerals and header text, as the retry rules read and write them.
use vstd::prelude::*;

verus! {

/// Whether `byte` is one of the ASCII digits `0` to `9`.
pub open spec fn is_digit(byte: u8) -> bool {
    48 <= byte <= 57
}

/// Whether every byte of `text` is an ASCII digit.
pub open spec fn all_digits(text: Seq<u8>) -> bool {
    forall|i: int| 0 <= i < text.len() ==> is_digit(#[trigger] text[i])
}

/// The number that a run of decimal digits denotes, most significant digit
/// first; the empty run denotes zero.
pub open spec fn digits_value(digits: Seq<u8>) -> nat
    decreases digits.len(),
{
    if digits.len() == 0 {
        0
    } else {
        digits_value(digits.drop_last()) * 10 + (digits.last() - 48) as nat
    }
}

/// The digits of an unsigned numeral: the text without one leading `+`.
pub open spec fn numeral_digits(text: Seq<u8>) -> Seq<u8> {
    if text.len() > 0 && text[0] == 43 {
        text.skip(1)
    } else {
        text
    }
}

/// What `text` denotes as an unsigned 64-bit decimal numeral: an optional
/// `+`, then one digit or more, and nothing else. `None` where the text has
/// another shape or the number does not fit. This is how the standard
/// library parses a `u64`.
pub open spec fn decimal_value(text: Seq<u8>) -> Option<u64> {
    let digits = numeral_digits(text);
    if digits.len() > 0 && all_digits(digits) && digits_value(digits) <= u64::MAX {
        Some(digits_value(digits) as u64)
    } else {
        None
    }
}

/// A numeral is worth at least as much as each of its prefixes.
proof fn lemma_prefix_value(digits: Seq<u8>, k: int)
    requires
        0 <= k <= digits.len(),
        all_digits(digits),
    ensures
        digits_value(digits.take(k)) <= digits_value(digits),
    decreases digits.len(),
{
    if k < digits.len() {
        let shorter = digits.drop_last();
        assert(all_digits(shorter)) by {
            assert forall|i: int| 0 <= i < shorter.len() implies is_digit(
                #[trigger] shorter[i],
            ) by {
                assert(shorter[i] == digits[i]);
            }
        }
        lemma_prefix_value(shorter, k);
        assert(shorter.take(k) == digits.take(k));
        assert(is_digit(digits[digits.len() - 1]));
    } else {
        assert(digits.take(k) == digits);
    }
}

/// Reads an unsigned 64-bit decimal numeral.
pub fn parse_decimal(text: &[u8]) -> (value: Option<u64>)
    ensures
        value == decimal_value(text@),
{
    let n: usize = text.len();
    let start: usize = if n > 0 && text[0] == 43 {
        1
    } else {
        0
    };
    let ghost digits = numeral_digits(text@);
    assert(digits == text@.skip(start as int));
    if start == n {
        return None;
    }
    let mut total: u64 = 0;
    let mut i: usize = start;
    assert(digits.take(0) == Seq::<u8>::empty());
    while i < n
        invariant
            start <= i <= n,
            n == text@.len(),
            digits == text@.skip(start as int),
            digits == numeral_digits(text@),
            all_digits(digits.take(i - start)),
            total == digits_value(digits.take(i - start)),
        decreases n - i,
    {
        let byte: u8 = text[i];
        let ghost seen = digits.take(i - start + 1);
        assert(digits[i - start] == byte);
        if byte < 48 || byte > 57 {
            assert(!is_digit(digits[i - start]));
            return None;
        }
        let digit: u64 = (byte - 48) as u64;
        assert(seen.drop_last() == digits.take(i - start));
        assert(seen.last() == byte);
        assert(digits_value(seen) == total * 10 + digit);
        if total > (u64::MAX - digit) / 10 {
            proof {
                if all_digits(digits) {
                    lemma_prefix_value(digits, i - start + 1);
                }
            }
            return None;
        }
        total = total * 10 + digit;
        assert(all_digits(seen)) by {
            assert forall|j: int| 0 <= j < seen.len() implies is_digit(#[trigger] seen[j]) by {
                if j < i - start {
                    assert(seen[j] == digits.take(i - start)[j]);
                }
            }
        }
        i += 1;
    }
    assert(digits.take(n - start) == digits);
    Some(total)
}

/// The character for one decimal digit.
pub open spec fn digit_char(digit: nat) -> char {
    (48 + digit) as u8 as char
}

/// The decimal numeral for `n`, without leading zeros.
pub open spec fn decimal_digits(n: nat) -> Seq<char>
    decreases n,
{
    if n < 10 {
        seq![digit_char(n)]
    } else {
        decimal_digits(n / 10).push(digit_char(n % 10))
    }
}

/// Writes `n` as a decimal numeral.
pub fn decimal_string(n: u64) -> (text: String)
    ensures
        text@ == decimal_digits(n as nat),
    decreases n,
{
    let mut text = if n >= 10 {
        decimal_string(n / 10)
    } else {
        String::new()
    };
    let digit: u8 = (n % 10) as u8;
    push_char(&mut text, (48 + digit) as char);
    text
}

/// Characters as bytes, for text that is ASCII.
pub open spec fn ascii_bytes(text: Seq<char>) -> Seq<u8> {
    Seq::new(text.len(), |i: int| text[i] as u8)
}

proof fn lemma_digits_of(n: nat)
    ensures
        decimal_digits(n).len() > 0,
        all_digits(ascii_bytes(decimal_digits(n))),
        digits_value(ascii_bytes(decimal_digits(n))) == n,
    decreases n,
{
    let text = decimal_digits(n);
    let bytes = ascii_bytes(text);
    if n < 10 {
        assert(text == seq![digit_char(n)]);
        assert(bytes[0] == 48 + n);
        assert(bytes.drop_last() == Seq::<u8>::empty());
        assert(digits_value(bytes.drop_last()) == 0);
    } else {
        lemma_digits_of(n / 10);
        let shorter = ascii_bytes(decimal_digits(n / 10));
        assert(bytes.drop_last() == shorter);
        assert(bytes.last() == 48 + n % 10);
        assert forall|i: int| 0 <= i < bytes.len() implies is_digit(#[trigger] bytes[i]) by {
            if i < shorter.len() {
                assert(bytes[i] == shorter[i]);
            }
        }
    }
}

/// Reading a number that was written gives the number back: the numeral
/// that [`decimal_string`] writes for `n` is one that [`parse_decimal`]
/// reads as `n`.
pub proof fn lemma_decimal_round_trip(n: u64)
    ensures
        decimal_value(ascii_bytes(decimal_digits(n as nat))) == Some(n),
{
    lemma_digits_of(n as nat);
    let bytes = ascii_bytes(decimal_digits(n as nat));
    assert(is_digit(bytes[0]));
    assert(numeral_digits(bytes) == bytes);
}

/// Whether a header byte is visible ASCII or a tab. A header value is read
/// as text only if all its bytes are, which is the test that
/// `http::HeaderValue::to_str` makes.
pub open spec fn is_visible(byte: u8) -> bool {
    (32 <= byte && byte < 127) || byte == 9
}

/// Whether every byte of a header value can be read as text.
pub open spec fn all_visible(bytes: Seq<u8>) -> bool {
    forall|i: int| 0 <= i < bytes.len() ==> is_visible(#[trigger] bytes[i])
}

/// ASCII bytes as characters.
pub open spec fn ascii_text(bytes: Seq<u8>) -> Seq<char> {
    Seq::new(bytes.len(), |i: int| bytes[i] as char)
}

/// Reads a header value as text, which it is exactly when it holds only
/// visible ASCII and tabs.
pub fn visible_text(bytes: &[u8]) -> (text: Option<String>)
    ensures
        match text {
            Some(t) => all_visible(bytes@) && t@ == ascii_text(bytes@),
            None => !all_visible(bytes@),
        },
{
    let n: usize = bytes.len();
    let mut text = String::new();
    let mut i: usize = 0;
    while i < n
        invariant
            i <= n,
            n == bytes@.len(),
            all_visible(bytes@.take(i as int)),
            text@ == ascii_text(bytes@.take(i as int)),
        decreases n - i,
    {
        let byte: u8 = bytes[i];
        if !((32 <= byte && byte < 127) || byte == 9) {
            assert(!is_visible(bytes@[i as int]));
            return None;
        }
        push_char(&mut text, byte as char);
        assert(text@ == ascii_text(bytes@.take(i + 1)));
        assert(all_visible(bytes@.take(i + 1))) by {
            assert forall|j: int| 0 <= j < i + 1 implies is_visible(
                #[trigger] bytes@.take(i + 1)[j],
            ) by {
                if j < i {
                    assert(bytes@.take(i + 1)[j] == bytes@.take(i as int)[j]);
                }
            }
        }
        i += 1;
    }
    assert(bytes@.take(n as int) == bytes@);
    Some(text)
}

/// Whether a character may stand in a header value that is set from text:
/// a tab, or anything from the space on but the delete character. This is
/// the test that `http::HeaderValue::from_str` makes, byte by byte; every
/// byte of a character beyond ASCII passes it.
pub open spec fn is_header_char(c: char) -> bool {
    (c as u32 >= 32 && c as u32 != 127) || c as u32 == 9
}

/// Whether `text` can be sent as a header value.
pub open spec fn is_header_text(text: Seq<char>) -> bool {
    forall|i: int| 0 <= i < text.len() ==> is_header_char(#[trigger] text[i])
}

/// Tests whether `text` can be sent as a header value.
pub fn is_header_value(text: &str) -> (ok: bool)
    ensures
        ok == is_header_text(text@),
{
    let n: usize = text.unicode_len();
    let mut i: usize = 0;
    while i < n
        invariant
            i <= n,
            n == text@.len(),
            forall|j: int| 0 <= j < i ==> is_header_char(#[trigger] text@[j]),
        decreases n - i,
    {
        let c: char = text.get_char(i);
        let code: u32 = c as u32;
        if !((code >= 32 && code != 127) || code == 9) {
            assert(!is_header_char(text@[i as int]));
            return false;
        }
        i += 1;
    }
    true
}

/// Joins three texts.
pub fn concat3(a: &str, b: &str, c: &str) -> (text: String)
    ensures
        text@ == a@ + b@ + c@,
{
    let mut text = String::from_str(a);
    text.append(b);
    text.append(c);
    text
}

/// What the standard `Debug` rendering of a string slice writes for `text`:
/// the text in double quotes, with its special characters escaped.
pub uninterp spec fn quoted(text: Seq<char>) -> Seq<char>;

/// `format!("{:?}", text)` for a string slice. The result is named, not
/// spelled out: it is [`quoted`] of the text.
#[verifier::external_body]
pub(crate) fn debug_text(text: &str) -> (rendered: String)
    ensures
        rendered@ == quoted(text@),
{
    format!("{:?}", text)
}

/// `String::push`: the character is appended to the end of the text.
#[verifier::external_body]
pub(crate) fn push_char(text: &mut String, c: char)
    ensures
        final(text)@ == old(text)@.push(c),
{
    text.push(c)
}

} // verus!
