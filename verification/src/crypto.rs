//! The two cryptographic primitives the library relies on: SHA-256 digests
//! and tokens signed with HMAC-SHA256. Both are computed by other crates.
//! What this module says of them is believed by the verifier, not proved.

use hmac::{Hmac, Mac};
use jwt::SignWithKey;
use sha2::Sha256;
use vstd::prelude::*;

verus! {

/// The SHA-256 digest of the UTF-8 encoding of `text`, written as 64
/// lower-case hexadecimal digits.
pub uninterp spec fn sha256_hex(text: Seq<char>) -> Seq<char>;

/// The compact token whose payload is `user_id` as JSON, signed with
/// HMAC-SHA256 under the UTF-8 encoding of `secret`; `None` where no token
/// can be made.
pub uninterp spec fn hs256_token(
    secret: Seq<char>,
    user_id: Option<Seq<char>>,
) -> Option<Seq<char>>;

/// The number of `.` characters in `token`.
pub open spec fn separators(token: Seq<char>) -> nat {
    token.filter(|c: char| c == '.').len()
}

/// `jwt::Error`, what signing fails with. Its content is never read.
#[verifier::external_type_specification]
#[verifier::external_body]
pub struct ExJwtError(jwt::Error);

/// Calls `sha256::digest` on `text`.
///
/// Believed: the digest depends on the characters of `text` alone. The
/// contract names it [`sha256_hex`] and says nothing else of it.
#[verifier::external_body]
pub(crate) fn sha256_digest(text: &String) -> (hex: String)
    ensures
        hex@ == sha256_hex(text@),
{
    sha256::digest(text)
}

/// Makes an HMAC-SHA256 key of the bytes of `secret` with
/// `Hmac::new_from_slice` and signs `user_id` under it with
/// `SignWithKey::sign_with_key` of the `jwt` crate. A failure of either comes
/// back as the `jwt::Error`.
///
/// Believed: whether a token is made, and which, depends on the two
/// arguments alone, which the contract names [`hs256_token`]; and a token is
/// three segments of URL-safe base64 without padding joined by `.`, so that
/// it holds exactly two `.` characters.
#[verifier::external_body]
pub(crate) fn sign_user_id(
    secret: &String,
    user_id: &Option<String>,
) -> (signed: Result<String, jwt::Error>)
    ensures
        signed is Ok ==> hs256_token(secret@, user_id.deep_view()) == Some(signed.unwrap()@),
        signed is Ok ==> separators(signed.unwrap()@) == 2,
        signed is Err ==> hs256_token(secret@, user_id.deep_view()) is None,
{
    let key: Hmac<Sha256> = Hmac::new_from_slice(secret.as_bytes())?;
    user_id.sign_with_key(&key)
}

} // verus!
