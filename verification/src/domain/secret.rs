//! The password stays inside `zeroize::Zeroizing`, which wipes it from
//! memory when it is dropped.
use vstd::prelude::*;
use zeroize::Zeroizing;

verus! {

/// Holds a `zeroize::Zeroizing<String>`; Verus sees it only through the
/// functions below.
#[verifier::external_body]
pub struct SecretText {
    inner: Zeroizing<String>,
}

/// The characters of the string that a `SecretText` holds.
pub uninterp spec fn secret_text(secret: SecretText) -> Seq<char>;

/// `Zeroizing::new`: the new holder keeps exactly the given string.
#[verifier::external_body]
fn zeroizing_new(value: String) -> (secret: SecretText)
    ensures
        secret_text(secret) == value@,
{
    SecretText { inner: Zeroizing::new(value) }
}

/// `String::is_empty` read through `<Zeroizing<String> as Deref>::deref`:
/// whether the held string has no characters.
#[verifier::external_body]
fn zeroizing_is_empty(secret: &SecretText) -> (empty: bool)
    ensures
        empty == (secret_text(*secret).len() == 0),
{
    secret.inner.is_empty()
}

/// `String::as_str` read through `<Zeroizing<String> as Deref>::deref`:
/// the held string itself, not a copy.
#[verifier::external_body]
fn zeroizing_as_str(secret: &SecretText) -> (text: &str)
    ensures
        text@ == secret_text(*secret),
{
    secret.inner.as_str()
}

/// A password, wiped from memory when dropped.
pub struct Password {
    secret: SecretText,
}

impl View for Password {
    type V = Seq<char>;

    closed spec fn view(&self) -> Seq<char> {
        secret_text(self.secret)
    }
}

impl Password {
    pub fn new(value: String) -> (password: Self)
        ensures
            password@ == value@,
    {
        Password { secret: zeroizing_new(value) }
    }

    pub fn is_empty(&self) -> (empty: bool)
        ensures
            empty == (self@.len() == 0),
    {
        zeroizing_is_empty(&self.secret)
    }

    pub fn as_str(&self) -> (text: &str)
        ensures
            text@ == self@,
    {
        zeroizing_as_str(&self.secret)
    }
}

} // verus!
