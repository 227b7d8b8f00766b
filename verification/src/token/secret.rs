//! A sensitive text, kept in a container that clears its memory when it
//! is dropped and that does not show its content when it is printed.

use vstd::prelude::*;

verus! {

/// A sensitive text. The text is held in a `secrecy::Secret`, whose
/// declaration rests on a trait that cannot be described here, so the
/// whole struct is taken on trust.
#[verifier::external_body]
pub struct Sensitive {
    inner: secrecy::Secret<String>,
}

/// The text that a sensitive value holds.
pub uninterp spec fn sensitive_text(value: Sensitive) -> Seq<char>;

/// `secrecy::Secret::new` takes ownership of the text and holds it as it
/// is.
#[verifier::external_body]
fn seal(text: String) -> (value: Sensitive)
    ensures
        sensitive_text(value) == text@,
{
    Sensitive { inner: secrecy::Secret::new(text) }
}

/// `secrecy::ExposeSecret::expose_secret` hands out the text that the
/// container holds.
#[verifier::external_body]
fn expose(value: &Sensitive) -> (text: &String)
    ensures
        text@ == sensitive_text(*value),
{
    secrecy::ExposeSecret::expose_secret(&value.inner)
}

impl Sensitive {
    /// The text that the value holds.
    pub open spec fn text(&self) -> Seq<char> {
        sensitive_text(*self)
    }

    /// Puts `text` under protection.
    pub fn new(text: String) -> (value: Sensitive)
        ensures
            value.text() == text@,
    {
        seal(text)
    }

    /// The text that the value holds. This is the only way to it.
    pub fn expose_secret(&self) -> (text: &String)
        ensures
            text@ == self.text(),
    {
        expose(self)
    }
}

} // verus!
