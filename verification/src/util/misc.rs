//! Small operations on text: comparing, lower-casing and padding.

use vstd::prelude::*;
use vstd::utf8::*;
use vstd::string::*;

verus! {

/// The text that `str::to_lowercase` makes of `text`.
pub uninterp spec fn lowercase_of(text: Seq<char>) -> Seq<char>;

/// `str::to_lowercase` is a function of the text alone; the contract gives
/// its result a name.
pub assume_specification[ str::to_lowercase ](text: &str) -> (lower: String)
    ensures
        lower@ == lowercase_of(text@),
;

/// Whether two texts are the same.
pub fn same_text(a: &str, b: &str) -> (same: bool)
    ensures
        same == (a@ == b@),
{
    let left = a.as_bytes();
    let right = b.as_bytes();
    proof {
        encode_utf8_decode_utf8(a@);
        encode_utf8_decode_utf8(b@);
    }
    if left.len() != right.len() {
        return false;
    }
    let n = left.len();
    let mut i: usize = 0;
    while i < n
        invariant
            i <= n,
            n == left@.len(),
            n == right@.len(),
            left@ == a.spec_bytes(),
            right@ == b.spec_bytes(),
            forall|j: int| 0 <= j < i ==> left@[j] == right@[j],
        decreases n - i,
    {
        if left[i] != right[i] {
            return false;
        }
        i = i + 1;
    }
    assert(left@ =~= right@);
    true
}

/// The lower-case form of an ASCII capital letter; any other byte as it
/// is.
pub open spec fn ascii_lower(b: u8) -> u8 {
    if 65 <= b <= 90 {
        (b + 32) as u8
    } else {
        b
    }
}

/// Whether two byte strings differ at most in the case of ASCII letters.
pub open spec fn same_ignoring_ascii_case(a: Seq<u8>, b: Seq<u8>) -> bool {
    &&& a.len() == b.len()
    &&& forall|i: int| 0 <= i < a.len() ==> ascii_lower(#[trigger] a[i]) == ascii_lower(b[i])
}

/// Whether two texts, taken as UTF-8, differ at most in the case of ASCII
/// letters.
pub open spec fn matches_ignoring_ascii_case(a: Seq<char>, b: Seq<char>) -> bool {
    same_ignoring_ascii_case(encode_utf8(a), encode_utf8(b))
}

fn lower_byte(b: u8) -> (lower: u8)
    ensures
        lower == ascii_lower(b),
{
    if 65 <= b && b <= 90 {
        b + 32
    } else {
        b
    }
}

/// Whether two texts differ at most in the case of ASCII letters.
pub fn eq_ignore_ascii_case(a: &str, b: &str) -> (same: bool)
    ensures
        same == matches_ignoring_ascii_case(a@, b@),
{
    let left = a.as_bytes();
    let right = b.as_bytes();
    if left.len() != right.len() {
        return false;
    }
    let n = left.len();
    let mut i: usize = 0;
    while i < n
        invariant
            i <= n,
            n == left@.len(),
            n == right@.len(),
            left@ == a.spec_bytes(),
            right@ == b.spec_bytes(),
            forall|j: int| 0 <= j < i ==> ascii_lower(#[trigger] left@[j]) == ascii_lower(right@[j]),
        decreases n - i,
    {
        if lower_byte(left[i]) != lower_byte(right[i]) {
            return false;
        }
        i = i + 1;
    }
    true
}

/// `text` padded on the left with `pad_char` up to `length` bytes. A text
/// that already has `length` bytes or more stays as it is.
pub open spec fn left_padded(text: Seq<char>, length: int, pad_char: char) -> Seq<char> {
    if encode_utf8(text).len() >= length {
        text
    } else {
        Seq::new((length - encode_utf8(text).len()) as nat, |i: int| pad_char) + text
    }
}

/// Pads `text` on the left with `pad_char` up to `length` bytes.
pub fn pad_text(text: &str, length: usize, pad_char: char) -> (padded: String)
    ensures
        padded@ == left_padded(text@, length as int, pad_char),
{
    let text_len = text.as_bytes().len();
    let mut padded = String::new();
    if text_len < length {
        let pad_len = length - text_len;
        let mut i: usize = 0;
        while i < pad_len
            invariant
                i <= pad_len,
                padded@ =~= Seq::new(i as nat, |k: int| pad_char),
            decreases pad_len - i,
        {
            padded.push(pad_char);
            i = i + 1;
        }
    } else {
        assert(padded@ + text@ =~= text@);
    }
    padded.append(text);
    padded
}

/// Pads what `value` displays as on the left with `pad_char` up to
/// `length` bytes.
pub fn left_pad<T: std::fmt::Display>(value: T, length: usize, pad_char: char) -> (padded: String)
    ensures
        exists|text: String| #[trigger]
            to_string_from_display_ensures::<T>(&value, text) && padded@ == left_padded(
                text@,
                length as int,
                pad_char,
            ),
{
    let text = value.to_string();
    pad_text(text.as_str(), length, pad_char)
}

} // verus!
