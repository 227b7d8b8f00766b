//! What tokens are made of: the formats of raw tokens, the policy that
//! says how a raw token and the value it stands for are combined, and the
//! capabilities that produce tokens.

use vstd::prelude::*;
use vstd::string::*;
use vstd::utf8::*;
use crate::token::secret::Sensitive;
use crate::util::decimal::{decimal_string, decimal_text, lemma_parse_decimal_text};
use crate::util::misc::{left_padded, pad_text};

verus! {

/// Why no token was produced.
#[derive(Debug, PartialEq, Eq)]
pub enum TokenError {
    /// The source of raw tokens failed; the text says how.
    GenerationFailure(String),
}

/// An opaque generated identifier.
#[derive(Clone, Debug, PartialEq, Eq)]
pub struct Token(String);

impl View for Token {
    type V = Seq<char>;

    closed spec fn view(&self) -> Seq<char> {
        self.0@
    }
}

impl core::ops::Deref for Token {
    type Target = String;

    fn deref(&self) -> (text: &String)
        ensures
            text@ == self@,
    {
        &self.0
    }
}

impl From<String> for Token {
    fn from(value: String) -> (token: Token)
        ensures
            token@ == value@,
    {
        Token(value)
    }
}

impl vstd::std_specs::convert::FromSpecImpl<String> for Token {
    open spec fn obeys_from_spec() -> bool {
        true
    }

    closed spec fn from_spec(value: String) -> Token {
        Token(value)
    }
}

/// How the value of a sequence is written.
pub enum SequenceFormat {
    /// In decimal notation.
    Raw,
    /// In decimal notation, padded on the left with the character up to
    /// the length. A number that is longer is not cut.
    PaddedInt(usize, char),
}

impl SequenceFormat {
    /// The text that the format makes of `seq`.
    pub open spec fn rendered(&self, seq: i64) -> Seq<char> {
        match self {
            SequenceFormat::Raw => decimal_text(seq as int),
            SequenceFormat::PaddedInt(length, pad_char) => left_padded(
                decimal_text(seq as int),
                *length as int,
                *pad_char,
            ),
        }
    }

    /// Writes `seq` in this format.
    pub fn apply(&self, seq: i64) -> (text: String)
        ensures
            text@ == self.rendered(seq),
    {
        match self {
            SequenceFormat::Raw => decimal_string(seq),
            SequenceFormat::PaddedInt(len, chr) => {
                let digits = decimal_string(seq);
                pad_text(digits.as_str(), *len, *chr)
            },
        }
    }
}

/// A number whose decimal notation has `length` characters or more is
/// written without padding, and uncut. A shorter one comes out with
/// exactly `length` characters: padding first, then the number.
pub proof fn lemma_padded_int(length: usize, pad_char: char, seq: i64)
    ensures
        decimal_text(seq as int).len() >= length ==> SequenceFormat::PaddedInt(
            length,
            pad_char,
        ).rendered(seq) == decimal_text(seq as int),
        decimal_text(seq as int).len() < length ==> {
            let text = SequenceFormat::PaddedInt(length, pad_char).rendered(seq);
            let pad = length - decimal_text(seq as int).len();
            &&& text.len() == length
            &&& text.subrange(pad, length as int) == decimal_text(seq as int)
            &&& forall|i: int| 0 <= i < pad ==> text[i] == pad_char
        },
{
    lemma_parse_decimal_text(seq);
    let digits = decimal_text(seq as int);
    let text = SequenceFormat::PaddedInt(length, pad_char).rendered(seq);
    if digits.len() < length {
        let pad = length - digits.len();
        assert(text.subrange(pad, length as int) =~= digits);
    }
}

/// How raw tokens are produced.
pub enum TokenFormat {
    /// UUID
    Uuid,
    /// Sequence based token, written as the format says
    ///
    /// e.g.
    /// * (37, Raw) will produce "37"
    /// * (37, PaddedInt(4,'0')) will produce "0037"
    Sequence(SequenceFormat),
}

/// A tokenization rule.
pub struct Policy {
    /// Unique identifier of the policy
    pub code: String,
    /// How the token are generated
    pub format: TokenFormat,
    /// Prefix of the token
    pub prefix: Option<String>,
    /// number of bytes to retain from the left
    pub keep_left: usize,
    /// number of bytes to retain from the right
    pub keep_right: usize,
}

/// Where the part kept on the left ends, in a value of `n` bytes.
pub open spec fn left_end(keep_left: usize, n: int) -> int {
    if keep_left <= n {
        keep_left as int
    } else {
        n
    }
}

/// Where the part kept on the right starts, in a value of `n` bytes. It
/// never starts before the end of the part kept on the left: the two
/// parts do not overlap.
pub open spec fn right_start(keep_left: usize, keep_right: usize, n: int) -> int {
    if n - keep_right >= left_end(keep_left, n) {
        n - keep_right
    } else {
        left_end(keep_left, n)
    }
}

impl Policy {
    /// The prefix as text; empty where the policy has none.
    pub open spec fn prefix_text(&self) -> Seq<char> {
        match self.prefix {
            Some(prefix) => prefix@,
            None => Seq::empty(),
        }
    }

    /// Whether both cuts that the policy makes in `value` fall between
    /// two characters, so that the parts kept are texts.
    pub open spec fn cuts_whole_chars(&self, value: Seq<char>) -> bool {
        let bytes = encode_utf8(value);
        let n = bytes.len() as int;
        &&& is_char_boundary(bytes, left_end(self.keep_left, n))
        &&& is_char_boundary(bytes, right_start(self.keep_left, self.keep_right, n))
    }

    /// The part of `value` kept on the left.
    pub open spec fn kept_left(&self, value: Seq<char>) -> Seq<char> {
        let bytes = encode_utf8(value);
        decode_utf8(bytes.subrange(0, left_end(self.keep_left, bytes.len() as int)))
    }

    /// The part of `value` kept on the right.
    pub open spec fn kept_right(&self, value: Seq<char>) -> Seq<char> {
        let bytes = encode_utf8(value);
        let n = bytes.len() as int;
        decode_utf8(bytes.subrange(right_start(self.keep_left, self.keep_right, n), n))
    }

    /// The token that the policy makes of a raw token and the value it
    /// stands for: the prefix, the part of the value kept on the left,
    /// the raw token, the part of the value kept on the right.
    pub open spec fn masked(&self, token: Seq<char>, value: Seq<char>) -> Seq<char> {
        self.prefix_text() + self.kept_left(value) + token + self.kept_right(value)
    }

    /// Whether both cuts that the policy makes in `value` fall between
    /// two characters.
    pub fn keeps_whole_chars(&self, value: &str) -> (whole: bool)
        ensures
            whole == self.cuts_whole_chars(value@),
    {
        let n = value.as_bytes().len();
        let idx_left = if self.keep_left <= n { self.keep_left } else { n };
        let idx_right = if self.keep_right <= n - idx_left { n - self.keep_right } else { idx_left };
        value.is_char_boundary(idx_left) && value.is_char_boundary(idx_right)
    }

    /// Combines a raw token with the value it stands for.
    pub fn generate(&self, token: String, value: String) -> (masked: String)
        requires
            self.cuts_whole_chars(value@),
        ensures
            masked@ == self.masked(token@, value@),
    {
        let text = value.as_str();
        let n = text.as_bytes().len();
        let idx_left = if self.keep_left <= n { self.keep_left } else { n };
        let idx_right = if self.keep_right <= n - idx_left { n - self.keep_right } else { idx_left };
        let left = text.split_at(idx_left).0;
        let right = text.split_at(idx_right).1;
        proof {
            encode_utf8_decode_utf8(left@);
            encode_utf8_decode_utf8(right@);
        }
        let mut masked = String::new();
        match &self.prefix {
            Some(prefix) => masked.append(prefix.as_str()),
            None => {},
        }
        assert(masked@ =~= self.prefix_text());
        masked.append(left);
        masked.append(token.as_str());
        masked.append(right);
        masked
    }
}

/// A token is at least as long as the raw token in it, so it is not
/// empty unless the raw token is.
pub proof fn lemma_masked_holds_token(policy: Policy, token: Seq<char>, value: Seq<char>)
    ensures
        policy.masked(token, value).len() >= token.len(),
        policy.masked(token, value).subrange(
            (policy.prefix_text() + policy.kept_left(value)).len() as int,
            (policy.prefix_text() + policy.kept_left(value)).len() + token.len() as int,
        ) == token,
{
    let head = policy.prefix_text() + policy.kept_left(value);
    assert(policy.masked(token, value).subrange(
        head.len() as int,
        head.len() + token.len() as int,
    ) =~= token);
}

/// A source of raw tokens. What a source answers is its own affair: it
/// may fail, and nothing is said here of the raw token that it hands out.
pub trait RawTokenGenerator {
    /// Produces a raw token in the given format.
    fn generate(&self, token_format: &TokenFormat) -> Result<String, TokenError>;
}

/// A source of tokens.
pub trait TokenGenerator {
    /// Produces the token that stands for `value` under `policy`.
    fn generate(&self, policy: &Policy, value: Sensitive) -> Result<Token, TokenError>
        requires
            policy.cuts_whole_chars(value.text()),
    ;
}

} // verus!
