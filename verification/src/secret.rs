//! Secret strings, held in a `secrecy::Secret` so that they are wiped from
//! memory when dropped and kept out of debug output.

use vstd::prelude::*;
use secrecy::ExposeSecret;

verus! {

/// A string held as a secret. Its only field is a `secrecy::Secret<String>`;
/// the struct is opaque to Verus, and the secret string it holds is named by
/// `exposed`.
#[verifier::external_body]
#[derive(Debug)]
pub struct SecretString {
    inner: secrecy::Secret<String>,
}

/// What `ExposeSecret::expose_secret` returns for the secret held in a
/// `SecretString`, by its characters.
pub uninterp spec fn exposed(secret: SecretString) -> Seq<char>;

impl View for SecretString {
    type V = Seq<char>;

    open spec fn view(&self) -> Seq<char> {
        exposed(*self)
    }
}

impl SecretString {
    /// Calls `Secret::new`, which stores the string it is given as the
    /// secret; `expose_secret` hands back that stored string.
    #[verifier::external_body]
    pub fn new(value: String) -> (secret: SecretString)
        ensures
            exposed(secret) == value@,
    {
        SecretString { inner: secrecy::Secret::new(value) }
    }

    /// Calls `ExposeSecret::expose_secret`, which returns a reference to the
    /// stored string.
    #[verifier::external_body]
    pub fn expose_secret(&self) -> (value: &String)
        ensures
            value@ == exposed(*self),
    {
        self.inner.expose_secret()
    }
}

impl Clone for SecretString {
    /// Calls `Clone::clone` of `secrecy::Secret<String>`, which clones the
    /// stored string.
    #[verifier::external_body]
    fn clone(&self) -> (copy: SecretString)
        ensures
            exposed(copy) == exposed(*self),
    {
        SecretString { inner: self.inner.clone() }
    }
}

} // verus!
