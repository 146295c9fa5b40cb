//! What may be logged of a call. The input of a call is logged in full
//! unless the method or the text gives away that it holds wallet secrets;
//! the output is logged cut to a fixed length, and not at all for the
//! methods that return credentials. Redaction touches the log only: the
//! values that go to the backend and back to the caller are never changed.

use crate::text::{chars_of, clip, clipped, found_in, occurs_in, same_text};
use vstd::prelude::*;
use vstd::string::*;

verus! {

/// The longest output, in characters, that is logged.
pub const OUTPUT_LOG_LIMIT: usize = 200;

/// Whether the input of `method` is never logged.
pub open spec fn redacts_input_of(method: Seq<char>) -> bool {
    ||| method == "login"@
    ||| method == "register_user"@
    ||| method == "encrypt_with_pin"@
    ||| method == "decrypt_with_pin"@
    ||| method == "create_subaccount"@
    ||| method == "credentials_from_pin_data"@
}

/// Whether the output of `method` is never logged.
pub open spec fn redacts_output_of(method: Seq<char>) -> bool {
    method == "credentials_from_pin_data"@
}

/// Whether a text names a PIN, a mnemonic or an extended private key.
pub open spec fn names_a_secret(text: Seq<char>) -> bool {
    ||| occurs_in(text, "pin"@)
    ||| occurs_in(text, "mnemonic"@)
    ||| occurs_in(text, "xprv"@)
}

/// What is logged of an input: the placeholder for a sensitive method or a
/// text that names a secret, the text itself otherwise.
pub open spec fn redacted_input(method: Seq<char>, text: Seq<char>) -> Seq<char> {
    if redacts_input_of(method) || names_a_secret(text) {
        "redacted"@
    } else {
        text
    }
}

/// What is logged of an output: the placeholder for a method that returns
/// credentials, the text itself otherwise, either cut to the limit.
pub open spec fn redacted_output(method: Seq<char>, text: Seq<char>) -> Seq<char> {
    clipped(
        if redacts_output_of(method) {
            "redacted"@
        } else {
            text
        },
        OUTPUT_LOG_LIMIT as nat,
    )
}

/// Whether the input of `method` is never logged.
pub fn is_input_redacted(method: &str) -> (r: bool)
    ensures
        r == redacts_input_of(method@),
{
    same_text(method, "login") || same_text(method, "register_user") || same_text(
        method,
        "encrypt_with_pin",
    ) || same_text(method, "decrypt_with_pin") || same_text(method, "create_subaccount")
        || same_text(method, "credentials_from_pin_data")
}

/// Whether the output of `method` is never logged.
pub fn is_output_redacted(method: &str) -> (r: bool)
    ensures
        r == redacts_output_of(method@),
{
    same_text(method, "credentials_from_pin_data")
}

/// Whether a text names a PIN, a mnemonic or an extended private key.
pub fn has_secret(text: &str) -> (r: bool)
    ensures
        r == names_a_secret(text@),
{
    let hay = chars_of(text);
    let pin = chars_of("pin");
    let mnemonic = chars_of("mnemonic");
    let xprv = chars_of("xprv");
    found_in(&hay, &pin) || found_in(&hay, &mnemonic) || found_in(&hay, &xprv)
}

/// What is logged of the input of a call, given the method and the text
/// that stands for the input.
pub fn redact_input(method: &str, text: String) -> (r: String)
    ensures
        r@ == redacted_input(method@, text@),
        redacts_input_of(method@) ==> r@ == "redacted"@,
        names_a_secret(text@) ==> r@ == "redacted"@,
{
    if is_input_redacted(method) || has_secret(text.as_str()) {
        String::from_str("redacted")
    } else {
        text
    }
}

/// What is logged of the output of a call, given the method and the text
/// that stands for the output: never more than the limit.
pub fn redact_output(method: &str, text: String) -> (r: String)
    ensures
        r@ == redacted_output(method@, text@),
        r@.len() <= OUTPUT_LOG_LIMIT,
        redacts_output_of(method@) ==> r@ == "redacted"@,
{
    proof {
        lemma_placeholder_is_short();
    }
    if is_output_redacted(method) {
        clip("redacted", OUTPUT_LOG_LIMIT)
    } else {
        clip(text.as_str(), OUTPUT_LOG_LIMIT)
    }
}

/// The placeholder fits in the limit, so cutting leaves it whole.
pub proof fn lemma_placeholder_is_short()
    ensures
        "redacted"@.len() == 8,
        clipped("redacted"@, OUTPUT_LOG_LIMIT as nat) == "redacted"@,
{
    reveal_strlit("redacted");
}

/// The input of a login is never logged, whatever it holds: the log shows
/// the placeholder. So it is for every input that names a mnemonic,
/// whatever the method.
pub proof fn lemma_login_is_redacted(method: Seq<char>, text: Seq<char>)
    ensures
        redacted_input("login"@, text) == "redacted"@,
        occurs_in(text, "mnemonic"@) ==> redacted_input(method, text) == "redacted"@,
{
}

} // verus!
