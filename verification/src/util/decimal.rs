//! Decimal notation for 64-bit integers: writing a number as text and
//! reading one back from bytes.

use vstd::prelude::*;
use vstd::utf8::*;

verus! {

/// `String::push` appends one character and leaves the rest as it was.
pub assume_specification[ String::push ](text: &mut String, ch: char)
    ensures
        final(text)@ == old(text)@.push(ch),
;

/// The character that writes the digit `d`, for `0 <= d <= 9`.
pub open spec fn digit_char(d: int) -> char {
    (d + 48) as u8 as char
}

/// The digits of `n`, most significant first, without leading zeros.
pub open spec fn digits_of(n: nat) -> Seq<char>
    decreases n,
{
    if n < 10 {
        seq![digit_char(n as int)]
    } else {
        digits_of(n / 10).push(digit_char((n % 10) as int))
    }
}

/// The decimal notation of `v`: a minus sign for a negative number, then
/// the digits of its magnitude.
pub open spec fn decimal_text(v: int) -> Seq<char> {
    if v < 0 {
        seq!['-'] + digits_of((-v) as nat)
    } else {
        digits_of(v as nat)
    }
}

/// Ten to the power `k`.
pub open spec fn power_of_ten(k: nat) -> nat
    decreases k,
{
    if k == 0 {
        1
    } else {
        10 * power_of_ten((k - 1) as nat)
    }
}

/// A number below ten to the `k` has at most `k` digits.
pub proof fn lemma_digits_len(n: nat, k: nat)
    requires
        k >= 1,
        n < power_of_ten(k),
    ensures
        1 <= digits_of(n).len() <= k,
    decreases k,
{
    reveal_with_fuel(power_of_ten, 2);
    if n >= 10 {
        lemma_digits_len(n / 10, (k - 1) as nat);
    }
}

/// The decimal notation of a 64-bit integer has between one and twenty
/// characters.
pub proof fn lemma_decimal_text_len(v: i64)
    ensures
        1 <= decimal_text(v as int).len() <= 20,
{
    assert(power_of_ten(19) == 10_000_000_000_000_000_000nat) by {
        reveal_with_fuel(power_of_ten, 20);
    }
    if v < 0 {
        lemma_digits_len((-v) as nat, 19);
    } else {
        lemma_digits_len(v as nat, 19);
    }
}

fn push_digits(text: &mut String, n: u64)
    ensures
        final(text)@ == old(text)@ + digits_of(n as nat),
    decreases n,
{
    if n >= 10 {
        push_digits(text, n / 10);
    }
    let d: u8 = (n % 10) as u8;
    text.push((d + 48) as char);
}

/// Writes `v` in decimal notation.
pub fn decimal_string(v: i64) -> (text: String)
    ensures
        text@ == decimal_text(v as int),
{
    let mut text = String::new();
    if v < 0 {
        text.push('-');
        let magnitude: u64 = if v == i64::MIN {
            9223372036854775808u64
        } else {
            (-v) as u64
        };
        push_digits(&mut text, magnitude);
    } else {
        push_digits(&mut text, v as u64);
    }
    text
}

/// Whether `b` is the code of a decimal digit.
pub open spec fn is_digit(b: u8) -> bool {
    48 <= b <= 57
}

/// Whether every byte of `s` is a decimal digit.
pub open spec fn all_digits(s: Seq<u8>) -> bool {
    forall|i: int| 0 <= i < s.len() ==> is_digit(#[trigger] s[i])
}

/// The number that the digit `b` writes; zero for any other byte.
pub open spec fn digit_value(b: u8) -> nat {
    if is_digit(b) {
        (b - 48) as nat
    } else {
        0
    }
}

/// The number that a run of digits writes, most significant first.
pub open spec fn digits_value(s: Seq<u8>) -> nat
    decreases s.len(),
{
    if s.len() == 0 {
        0
    } else {
        digits_value(s.drop_last()) * 10 + digit_value(s.last())
    }
}

/// Whether `s` starts with a plus or a minus sign.
pub open spec fn has_sign(s: Seq<u8>) -> bool {
    s.len() > 0 && (s[0] == 43 || s[0] == 45)
}

/// The part of `s` behind its sign, or all of `s` where it has none.
pub open spec fn unsigned_part(s: Seq<u8>) -> Seq<u8> {
    if has_sign(s) {
        s.drop_first()
    } else {
        s
    }
}

/// The integer that `s` writes, read as a whole.
pub open spec fn signed_value(s: Seq<u8>) -> int {
    if s.len() > 0 && s[0] == 45 {
        -(digits_value(unsigned_part(s)) as int)
    } else {
        digits_value(unsigned_part(s)) as int
    }
}

/// What `s` denotes as a 64-bit integer: an optional sign, then one or
/// more digits and nothing else, with a value in range. Leading zeros
/// are accepted.
pub open spec fn parse_decimal(s: Seq<u8>) -> Option<i64> {
    if unsigned_part(s).len() > 0 && all_digits(unsigned_part(s)) && i64::MIN <= signed_value(s)
        <= i64::MAX {
        Some(signed_value(s) as i64)
    } else {
        None
    }
}

/// A run of digits is worth at least as much as any of its prefixes.
pub proof fn lemma_digits_value_grows(s: Seq<u8>, k: int)
    requires
        0 <= k <= s.len(),
    ensures
        digits_value(s.subrange(0, k)) <= digits_value(s),
    decreases s.len() - k,
{
    if k == s.len() {
        assert(s.subrange(0, k) =~= s);
    } else {
        lemma_digits_value_grows(s.drop_last(), k);
        assert(s.drop_last().subrange(0, k) =~= s.subrange(0, k));
    }
}

/// Reads a 64-bit integer from its decimal notation.
pub fn parse_i64(bytes: &[u8]) -> (value: Option<i64>)
    ensures
        value == parse_decimal(bytes@),
{
    let n = bytes.len();
    let signed = n > 0 && (bytes[0] == 43 || bytes[0] == 45);
    let negative = n > 0 && bytes[0] == 45;
    let start: usize = if signed { 1 } else { 0 };
    if start == n {
        return None;
    }
    let ghost body = unsigned_part(bytes@);
    let limit: u64 = if negative { 9223372036854775808u64 } else { 9223372036854775807u64 };
    let mut magnitude: u64 = 0;
    let mut i: usize = start;
    assert(body.subrange(0, 0) =~= Seq::<u8>::empty());
    while i < n
        invariant
            start <= i <= n,
            n == bytes@.len(),
            start == n - body.len(),
            body == unsigned_part(bytes@),
            forall|j: int| 0 <= j < body.len() ==> body[j] == bytes@[j + start],
            all_digits(body.subrange(0, i - start)),
            magnitude == digits_value(body.subrange(0, i - start)),
            magnitude <= limit,
            negative == (bytes@.len() > 0 && bytes@[0] == 45),
            limit == if negative { 9223372036854775808u64 } else { 9223372036854775807u64 },
        decreases n - i,
    {
        let b = bytes[i];
        let ghost seen = body.subrange(0, i - start);
        let ghost next = body.subrange(0, i - start + 1);
        assert(next.drop_last() =~= seen);
        assert(next.last() == b);
        if b < 48 || b > 57 {
            assert(!is_digit(body[i - start]));
            return None;
        }
        let d: u64 = (b - 48) as u64;
        if magnitude > (limit - d) / 10 {
            proof {
                lemma_digits_value_grows(body, i - start + 1);
                assert(digits_value(next) == magnitude * 10 + d);
            }
            return None;
        }
        magnitude = magnitude * 10 + d;
        i = i + 1;
    }
    assert(body.subrange(0, i - start) =~= body);
    if negative {
        if magnitude == 9223372036854775808u64 {
            Some(i64::MIN)
        } else {
            Some(-(magnitude as i64))
        }
    } else {
        Some(magnitude as i64)
    }
}

/// The bytes of a text whose characters are all ASCII.
pub open spec fn ascii_bytes(text: Seq<char>) -> Seq<u8> {
    Seq::new(text.len(), |i: int| text[i] as u8)
}

/// The digits of a number are ASCII, and their bytes are digits that
/// write that number.
pub proof fn lemma_digits_read_back(n: nat)
    ensures
        digits_of(n).len() > 0,
        is_ascii_chars(digits_of(n)),
        all_digits(ascii_bytes(digits_of(n))),
        digits_value(ascii_bytes(digits_of(n))) == n,
    decreases n,
{
    let text = digits_of(n);
    let bytes = ascii_bytes(text);
    if n < 10 {
        assert(bytes.drop_last() =~= Seq::<u8>::empty());
        assert(digits_value(bytes.drop_last()) == 0);
    } else {
        let shorter = ascii_bytes(digits_of(n / 10));
        lemma_digits_read_back(n / 10);
        assert(bytes.drop_last() =~= shorter);
        assert(bytes.last() == (n % 10) + 48);
        assert forall|i: int| 0 <= i < bytes.len() implies is_digit(#[trigger] bytes[i]) by {
            if i < shorter.len() {
                assert(bytes[i] == shorter[i]);
            }
        }
    }
}

/// The UTF-8 bytes of a number's decimal notation, read back, give the
/// number again.
pub proof fn lemma_parse_decimal_text(v: i64)
    ensures
        is_ascii_chars(decimal_text(v as int)),
        encode_utf8(decimal_text(v as int)) == ascii_bytes(decimal_text(v as int)),
        all_digits(unsigned_part(encode_utf8(decimal_text(v as int)))),
        parse_decimal(encode_utf8(decimal_text(v as int))) == Some(v),
{
    let text = decimal_text(v as int);
    let bytes = ascii_bytes(text);
    if v < 0 {
        let digits = digits_of((-v) as nat);
        lemma_digits_read_back((-v) as nat);
        assert(bytes.drop_first() =~= ascii_bytes(digits));
        assert(bytes[0] == 45);
    } else {
        lemma_digits_read_back(v as nat);
        assert(is_digit(bytes[0]));
    }
    is_ascii_chars_encode_utf8(text);
    assert(encode_utf8(text) =~= bytes);
}

} // verus!
