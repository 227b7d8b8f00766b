//! Cursor-based paging: a request for a page, the description of the page
//! that came back, and the opaque cursor that links one to the next.
//!
//! A cursor is the base64 text of a payload. The payload is one or more
//! fields separated by `;`, and its first field is the position in decimal
//! notation. A cursor that cannot be read stands for position zero.

use vstd::prelude::*;
use vstd::utf8::*;
use vstd::string::*;
use vstd::slice::slice_subrange;
use crate::util::codec::{base64_payload, base64_text, decode_standard, encode_standard};
use crate::util::decimal::{
    decimal_string,
    decimal_text,
    has_sign,
    is_digit,
    lemma_decimal_text_len,
    lemma_parse_decimal_text,
    parse_decimal,
    parse_i64,
    unsigned_part,
};

verus! {

/// The byte that separates the fields of a cursor's payload.
pub const FIELD_SEPARATOR: u8 = 59;

/// The length of the first field of `payload`: the number of bytes before
/// its first separator.
pub open spec fn first_field_len(payload: Seq<u8>) -> int
    decreases payload.len(),
{
    if payload.len() == 0 || payload[0] == FIELD_SEPARATOR {
        0
    } else {
        1 + first_field_len(payload.drop_first())
    }
}

/// The first field of `payload`.
pub open spec fn first_field(payload: Seq<u8>) -> Seq<u8> {
    payload.subrange(0, first_field_len(payload))
}

/// The position that a payload stands for: its first field read as a
/// decimal integer, or zero where the payload is not UTF-8 or the field is
/// no integer.
pub open spec fn payload_position(payload: Seq<u8>) -> i64 {
    if valid_utf8(payload) {
        match parse_decimal(first_field(payload)) {
            Some(position) => position,
            None => 0,
        }
    } else {
        0
    }
}

/// The position that a cursor's text stands for; zero where it is not
/// base64.
pub open spec fn token_position(token: Seq<char>) -> i64 {
    match base64_payload(token) {
        Some(payload) => payload_position(payload),
        None => 0,
    }
}

/// The position that a request starts after; zero where it names no
/// cursor.
pub open spec fn cursor_position(after: Option<String>) -> i64 {
    match after {
        Some(token) => token_position(token@),
        None => 0,
    }
}

/// The cursor's text for a position.
pub open spec fn position_token(position: i64) -> Seq<char> {
    base64_text(encode_utf8(decimal_text(position as int)))
}

/// The first field ends at `k` where no separator stands before `k` and
/// `k` is a separator or the end.
pub proof fn lemma_first_field_len(payload: Seq<u8>, k: int)
    requires
        0 <= k <= payload.len(),
        forall|j: int| 0 <= j < k ==> payload[j] != FIELD_SEPARATOR,
        k == payload.len() || payload[k] == FIELD_SEPARATOR,
    ensures
        first_field_len(payload) == k,
    decreases k,
{
    if k > 0 {
        let rest = payload.drop_first();
        assert forall|j: int| 0 <= j < k - 1 implies rest[j] != FIELD_SEPARATOR by {
            assert(rest[j] == payload[j + 1]);
        }
        lemma_first_field_len(rest, k - 1);
    }
}

/// The payload written for a position stands for that position.
pub proof fn lemma_position_of_decimal_payload(position: i64)
    ensures
        payload_position(encode_utf8(decimal_text(position as int))) == position,
{
    let text = decimal_text(position as int);
    let payload = encode_utf8(text);
    lemma_parse_decimal_text(position);
    encode_utf8_valid_utf8(text);
    let digits = unsigned_part(payload);
    assert forall|j: int| 0 <= j < payload.len() implies payload[j] != FIELD_SEPARATOR by {
        if has_sign(payload) {
            if j > 0 {
                assert(is_digit(digits[j - 1]));
            }
        } else {
            assert(is_digit(digits[j]));
        }
    }
    lemma_first_field_len(payload, payload.len() as int);
    assert(first_field(payload) =~= payload);
}

/// Of a payload with several fields only the first one counts: where
/// `field` holds no separator, the payload made of `field`, a separator
/// and anything else has `field` for its first field, and so stands for
/// what `field` denotes, or for zero.
pub proof fn lemma_only_first_field_counts(field: Seq<u8>, rest: Seq<u8>)
    requires
        forall|j: int| 0 <= j < field.len() ==> field[j] != FIELD_SEPARATOR,
    ensures
        first_field(field) == field,
        first_field(field + seq![FIELD_SEPARATOR] + rest) == field,
        valid_utf8(field + seq![FIELD_SEPARATOR] + rest) ==> payload_position(
            field + seq![FIELD_SEPARATOR] + rest,
        ) == match parse_decimal(field) {
            Some(position) => position,
            None => 0,
        },
{
    let payload = field + seq![FIELD_SEPARATOR] + rest;
    lemma_first_field_len(field, field.len() as int);
    assert(first_field(field) =~= field);
    assert forall|j: int| 0 <= j < field.len() implies payload[j] != FIELD_SEPARATOR by {
        assert(payload[j] == field[j]);
    }
    assert(payload[field.len() as int] == FIELD_SEPARATOR);
    lemma_first_field_len(payload, field.len() as int);
    assert(first_field(payload) =~= field);
}

/// Reads the position out of a cursor's payload.
pub fn position_of_payload(payload: &[u8]) -> (position: i64)
    ensures
        position == payload_position(payload@),
{
    if core::str::from_utf8(payload).is_err() {
        return 0;
    }
    let n = payload.len();
    let mut end: usize = 0;
    while end < n && payload[end] != FIELD_SEPARATOR
        invariant
            end <= n,
            n == payload@.len(),
            forall|j: int| 0 <= j < end ==> payload@[j] != FIELD_SEPARATOR,
        decreases n - end,
    {
        end = end + 1;
    }
    proof {
        lemma_first_field_len(payload@, end as int);
    }
    match parse_i64(slice_subrange(payload, 0, end)) {
        Some(position) => position,
        None => 0,
    }
}

/// What a list operation says of the page it returned.
pub struct PageInfos {
    /// The cursor to ask the next page with, where there is one.
    pub after: Option<String>,
    has_next_page: bool,
}

impl PageInfos {
    /// Whether more items follow this page.
    pub closed spec fn more(&self) -> bool {
        self.has_next_page
    }

    /// The cursor to ask the next page with, where there is one.
    pub closed spec fn token(&self) -> Option<String> {
        self.after
    }

    /// Describes a page that ends at `cursor`. Reading the cursor back
    /// gives `cursor` again.
    pub fn page_after(cursor: i64, has_next_page: bool) -> (infos: PageInfos)
        ensures
            infos.more() == has_next_page,
            infos.token() matches Some(token) && token@ == position_token(cursor),
            cursor_position(infos.token()) == cursor,
    {
        let text = decimal_string(cursor);
        proof {
            lemma_parse_decimal_text(cursor);
            lemma_position_of_decimal_payload(cursor);
            lemma_decimal_text_len(cursor);
        }
        let token = encode_standard(text.as_str().as_bytes());
        PageInfos { after: Some(token), has_next_page }
    }

    /// Describes the last page: nothing follows it.
    pub fn no_page_after() -> (infos: PageInfos)
        ensures
            !infos.more(),
            infos.token() is None,
    {
        PageInfos { after: None, has_next_page: false }
    }

    /// The cursor to ask the next page with.
    #[verifier::when_used_as_spec(token)]
    pub fn after(&self) -> (token: Option<String>)
        ensures
            token == self.token(),
    {
        self.after.clone()
    }

    /// Whether more items follow this page.
    #[verifier::when_used_as_spec(more)]
    pub fn has_next_page(&self) -> (more: bool)
        ensures
            more == self.more(),
    {
        self.has_next_page
    }
}

/// One page of a listing.
pub struct Page<T> {
    pub items: Vec<T>,
    pub page_infos: PageInfos,
}

/// A request for up to `first` items after the cursor `after`.
#[derive(Debug, Clone)]
pub struct Paging {
    pub first: i64,
    pub after: Option<String>,
}

impl Paging {
    pub fn new(first: i64, after: Option<String>) -> (paging: Paging)
        ensures
            paging.first == first,
            paging.after == after,
    {
        Paging { first, after }
    }
}

/// A cursor read as a position in a listing that is ordered by an integer
/// key.
pub struct IntCursor(i64);

impl IntCursor {
    /// The position that the cursor stands for.
    pub closed spec fn position(&self) -> i64 {
        self.0
    }

    /// Reads the position that a request starts after. A missing cursor,
    /// and one that cannot be read, stand for position zero.
    pub fn after(token: &Option<String>) -> (cursor: IntCursor)
        ensures
            cursor.position() == cursor_position(*token),
    {
        match token {
            Some(text) => match decode_standard(text.as_str()) {
                Some(payload) => IntCursor(position_of_payload(payload.as_slice())),
                None => IntCursor(0),
            },
            None => IntCursor(0),
        }
    }
}

impl core::ops::Deref for IntCursor {
    type Target = i64;

    fn deref(&self) -> (position: &i64)
        ensures
            *position == self.position(),
    {
        &self.0
    }
}

impl From<Paging> for IntCursor {
    fn from(paging: Paging) -> (cursor: IntCursor)
        ensures
            cursor.position() == cursor_position(paging.after),
    {
        IntCursor::after(&paging.after)
    }
}

impl vstd::std_specs::convert::FromSpecImpl<Paging> for IntCursor {
    open spec fn obeys_from_spec() -> bool {
        true
    }

    closed spec fn from_spec(paging: Paging) -> IntCursor {
        IntCursor(cursor_position(paging.after))
    }
}

} // verus!
