//! Secrets and the header values made from them.

use reqwest::header::HeaderValue;
use secrecy::{ExposeSecret, SecretString};
use vstd::prelude::*;
use vstd::utf8::encode_utf8;

verus! {

/// A secret string, held in a `secrecy::SecretString`: it stays out of debug
/// output, is wiped from memory when it is dropped, and gives its text only
/// where a header is made from it.
#[verifier::external_body]
#[derive(Debug)]
pub struct Secret {
    inner: SecretString,
}

/// `reqwest::header::HeaderValue`: bytes that were checked to be legal as
/// the value of an HTTP header.
#[verifier::external_type_specification]
#[verifier::external_body]
pub struct ExHeaderValue(HeaderValue);

/// The text that a secret holds.
pub uninterp spec fn secret_text(secret: Secret) -> Seq<char>;

impl View for Secret {
    type V = Seq<char>;

    open spec fn view(&self) -> Seq<char> {
        secret_text(*self)
    }
}

/// The bytes that a header value holds.
pub uninterp spec fn header_bytes(value: HeaderValue) -> Seq<u8>;

/// Whether a header value is marked as sensitive. Such a value shows in
/// debug output as the word `Sensitive` and not with its bytes.
pub uninterp spec fn header_sensitive(value: HeaderValue) -> bool;

/// A byte that may stand in the value of a header: a tab, or any byte from
/// 32 on but 127.
pub open spec fn header_byte(b: u8) -> bool {
    (b >= 32 && b != 127) || b == 9
}

/// Bytes that may be the value of a header.
pub open spec fn header_legal(bytes: Seq<u8>) -> bool {
    forall|i: int| 0 <= i < bytes.len() ==> header_byte(#[trigger] bytes[i])
}

/// `secrecy::Secret::new`: moves the text into a secret, which then holds
/// that text.
#[verifier::external_body]
fn seal(text: String) -> (secret: Secret)
    ensures
        secret_text(secret) == text@,
{
    Secret { inner: SecretString::new(text) }
}

/// `ExposeSecret::expose_secret`: hands out the text that the secret holds.
#[verifier::external_body]
pub(crate) fn expose(secret: &Secret) -> (text: &str)
    ensures
        text@ == secret_text(*secret),
{
    secret.inner.expose_secret().as_str()
}

/// `HeaderValue::clone`: the copy holds the same bytes and is marked as the
/// value is.
#[verifier::external_body]
pub(crate) fn copy_header(value: &HeaderValue) -> (copy: HeaderValue)
    ensures
        header_bytes(copy) == header_bytes(*value),
        header_sensitive(copy) == header_sensitive(*value),
{
    value.clone()
}

/// `HeaderValue::set_sensitive` with `true`: the value keeps its bytes and
/// is marked as sensitive.
#[verifier::external_body]
pub(crate) fn hide_header(value: HeaderValue) -> (hidden: HeaderValue)
    ensures
        header_bytes(hidden) == header_bytes(value),
        header_sensitive(hidden),
{
    let mut hidden = value;
    hidden.set_sensitive(true);
    hidden
}

impl Secret {
    /// Puts a text under seal.
    pub fn new(text: String) -> (secret: Secret)
        ensures
            secret@ == text@,
    {
        seal(text)
    }
}

/// `HeaderValue::from_str`: succeeds exactly when every byte of the text's
/// UTF-8 form is a tab or at least 32 and not 127; the value then holds those
/// bytes and is not marked as sensitive.
#[verifier::external_body]
pub(crate) fn header_value(text: &str) -> (value: Option<HeaderValue>)
    ensures
        value is Some <==> header_legal(encode_utf8(text@)),
        value matches Some(v) ==> header_bytes(v) == encode_utf8(text@) && !header_sensitive(v),
{
    HeaderValue::from_str(text).ok()
}

} // verus!
