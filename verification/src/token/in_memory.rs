//! Sources of raw tokens that live in memory: a counter shared by all
//! users of the source, and random identifiers.

use std::sync::atomic::{AtomicI64, Ordering};
use std::sync::Arc;
use vstd::prelude::*;
use crate::token::token::{RawTokenGenerator, Token, TokenError, TokenFormat};
use crate::util::decimal::lemma_decimal_text_len;

verus! {

/// Whether `c` is a hexadecimal digit in lower case.
pub open spec fn is_lower_hex(c: char) -> bool {
    ('0' <= c <= '9') || ('a' <= c <= 'f')
}

/// Whether `text` is a random identifier in the usual layout: 36
/// characters, hyphens after the 8th, 12th, 16th and 20th digit, the other
/// characters hexadecimal digits in lower case; the version digit is 4
/// and the variant digit is one of 8, 9, a and b.
pub open spec fn is_random_uuid(text: Seq<char>) -> bool {
    &&& text.len() == 36
    &&& forall|i: int|
        0 <= i < 36 ==> if i == 8 || i == 13 || i == 18 || i == 23 {
            #[trigger] text[i] == '-'
        } else {
            is_lower_hex(text[i])
        }
    &&& text[14] == '4'
    &&& (text[19] == '8' || text[19] == '9' || text[19] == 'a' || text[19] == 'b')
}

/// `uuid::Uuid::new_v4`, then the identifier's `to_string`. The identifier
/// is random, so the contract only says what holds of every outcome: its
/// layout, and the digits that are fixed for random identifiers.
#[verifier::external_body]
fn random_uuid() -> (text: String)
    ensures
        is_random_uuid(text@),
{
    uuid::Uuid::new_v4().to_string()
}

/// What an in-memory source may answer: it never fails; for the format
/// `Uuid` the answer is a random identifier, and for a sequence format it
/// is some number written in that format.
pub open spec fn in_memory_answer(token_format: TokenFormat, text: Seq<char>) -> bool {
    match token_format {
        TokenFormat::Uuid => is_random_uuid(text),
        TokenFormat::Sequence(sequence_format) => exists|seq: i64| #[trigger]
            sequence_format.rendered(seq) == text,
    }
}

/// What an in-memory source answers is never empty.
pub proof fn lemma_in_memory_answer_is_not_empty(token_format: TokenFormat, text: Seq<char>)
    requires
        in_memory_answer(token_format, text),
    ensures
        text.len() > 0,
{
    match token_format {
        TokenFormat::Uuid => {},
        TokenFormat::Sequence(sequence_format) => {
            let seq = choose|seq: i64| #[trigger] sequence_format.rendered(seq) == text;
            lemma_decimal_text_len(seq);
        },
    }
}

/// Writes a raw token: a fresh random identifier, or `seq` in the
/// sequence format.
pub fn raw_token(token_format: &TokenFormat, seq: i64) -> (text: String)
    ensures
        in_memory_answer(*token_format, text@),
        token_format matches TokenFormat::Sequence(sequence_format) ==> text@
            == sequence_format.rendered(seq),
        text@.len() > 0,
{
    let text = match token_format {
        TokenFormat::Uuid => random_uuid(),
        TokenFormat::Sequence(formatter) => formatter.apply(seq),
    };
    proof {
        lemma_in_memory_answer_is_not_empty(*token_format, text@);
    }
    text
}

/// A source of raw tokens whose sequence is a counter in memory. The
/// counter starts at 1, and clones of the source share it.
#[derive(Clone, Debug)]
pub struct InMemoryRawTokenGenerator {
    sequence: Arc<AtomicI64>,
}

impl InMemoryRawTokenGenerator {
    pub fn new() -> InMemoryRawTokenGenerator {
        InMemoryRawTokenGenerator { sequence: Arc::new(AtomicI64::new(1)) }
    }
}

impl RawTokenGenerator for InMemoryRawTokenGenerator {
    /// Takes the next value of the counter, in one step, where the format
    /// is a sequence. It never fails.
    fn generate(&self, token_format: &TokenFormat) -> (answer: Result<String, TokenError>)
        ensures
            answer matches Ok(text) && in_memory_answer(*token_format, text@) && text@.len() > 0,
    {
        match token_format {
            TokenFormat::Uuid => Ok(raw_token(token_format, 0)),
            TokenFormat::Sequence(_) => {
                let seq = self.sequence.fetch_add(1, Ordering::SeqCst);
                Ok(raw_token(token_format, seq))
            },
        }
    }
}

/// A source of tokens that are raw tokens and nothing more, with a
/// counter in memory for its sequence.
#[derive(Clone, Debug)]
pub struct InMemoryTokenGenerator {
    sequence: Arc<AtomicI64>,
}

impl InMemoryTokenGenerator {
    pub fn new() -> InMemoryTokenGenerator {
        InMemoryTokenGenerator { sequence: Arc::new(AtomicI64::new(1)) }
    }

    /// Produces a token in the given format. It never fails.
    pub fn generate(&self, format: TokenFormat) -> (answer: Result<Token, TokenError>)
        ensures
            answer matches Ok(token) && in_memory_answer(format, token@) && token@.len() > 0,
    {
        match format {
            TokenFormat::Uuid => Ok(Token::from(raw_token(&format, 0))),
            TokenFormat::Sequence(_) => {
                let seq = self.sequence.fetch_add(1, Ordering::SeqCst);
                Ok(Token::from(raw_token(&format, seq)))
            },
        }
    }
}

} // verus!
