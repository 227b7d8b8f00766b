//! The generator that masks what a source of raw tokens produced.

use vstd::prelude::*;
use vstd::string::*;
use crate::token::secret::Sensitive;
use crate::token::token::{Policy, RawTokenGenerator, Token, TokenError, TokenGenerator};

verus! {

/// Combines a raw token with the sensitive value it stands for. The
/// value is looked at here and nowhere else.
pub fn format(policy: &Policy, raw_token: String, value: Sensitive) -> (masked: String)
    requires
        policy.cuts_whole_chars(value.text()),
    ensures
        masked@ == policy.masked(raw_token@, value.text()),
{
    let unsecure = value.expose_secret().clone();
    policy.generate(raw_token, unsecure)
}

/// What becomes of the answer of a source of raw tokens: a failure is
/// passed on as it is, and a raw token is masked.
pub open spec fn issued(
    policy: Policy,
    raw: Result<String, TokenError>,
    value: Seq<char>,
    answer: Result<Token, TokenError>,
) -> bool {
    match raw {
        Ok(raw_token) => answer matches Ok(token) && token@ == policy.masked(raw_token@, value),
        Err(e) => answer == Err::<Token, TokenError>(e),
    }
}

/// Makes a token of what a source of raw tokens answered. A failure is
/// passed on, and the value is not looked at: then it may be any value.
pub fn issue(policy: &Policy, raw: Result<String, TokenError>, value: Sensitive) -> (answer: Result<
    Token,
    TokenError,
>)
    requires
        raw is Ok ==> policy.cuts_whole_chars(value.text()),
    ensures
        issued(*policy, raw, value.text(), answer),
{
    match raw {
        Ok(raw_token) => Ok(Token::from(format(policy, raw_token, value))),
        Err(e) => Err(e),
    }
}

/// A generator that takes raw tokens from `G` and masks them.
pub struct DefaultTokenGenerator<G> where G: RawTokenGenerator {
    delegate: G,
}

impl<G> DefaultTokenGenerator<G> where G: RawTokenGenerator {
    /// The source of raw tokens.
    pub closed spec fn source(&self) -> G {
        self.delegate
    }

    pub fn new(raw_generator: G) -> (generator: DefaultTokenGenerator<G>)
        ensures
            generator.source() == raw_generator,
    {
        DefaultTokenGenerator { delegate: raw_generator }
    }
}

impl<G> TokenGenerator for DefaultTokenGenerator<G> where G: RawTokenGenerator {
    /// Asks the source once, for a raw token in the policy's format, and
    /// makes a token of its answer as `issue` does. So the answer is what
    /// `issue` gives for something that the source may answer when it is
    /// asked for that format.
    fn generate(&self, policy: &Policy, value: Sensitive) -> (answer: Result<Token, TokenError>)
        ensures
            exists|raw: Result<String, TokenError>|
                call_ensures(
                    <G as RawTokenGenerator>::generate,
                    (&self.source(), &policy.format),
                    raw,
                ) && #[trigger] issued(*policy, raw, value.text(), answer),
    {
        let raw = self.delegate.generate(&policy.format);
        let ghost text = value.text();
        let answer = issue(policy, raw, value);
        assert(call_ensures(
            <G as RawTokenGenerator>::generate,
            (&self.source(), &policy.format),
            raw,
        ) && issued(*policy, raw, text, answer));
        answer
    }
}

} // verus!
