use vstd::prelude::*;

verus! {

/// The URL-safe base64 encoding of a token: the name of the result of
/// base64's URL-safe encoder, which depends on the token characters alone.
/// Both template operations embed a token through this one encoding.
pub uninterp spec fn b64url_of(s: Seq<char>) -> Seq<char>;

/// What base64's URL-safe decoder makes of a string: the name of the result
/// of the inverse of the encoding, `None` where the input decodes to no
/// token.
pub uninterp spec fn b64url_decoded(s: Seq<char>) -> Option<Seq<char>>;

/// Relies on base64::encode_config with the URL_SAFE alphabet: the output is
/// a pure function of the input bytes, so of the token characters, and
/// decoding it with the same alphabet yields the input again.
#[verifier::external_body]
pub(crate) fn b64url_encode(s: &str) -> (r: String)
    ensures
        r@ == b64url_of(s@),
        b64url_decoded(r@) == Some(s@),
{
    base64::encode_config(s, base64::URL_SAFE)
}

/// Relies on base64::decode_config with the URL_SAFE alphabet: the output is
/// a pure function of the input characters.
#[verifier::external_body]
pub(crate) fn b64url_decode(s: &str) -> (r: Option<String>)
    ensures
        r matches Some(u) ==> b64url_decoded(s@) == Some(u@),
        r is None ==> b64url_decoded(s@) is None,
{
    match base64::decode_config(s, base64::URL_SAFE) {
        Ok(bytes) => String::from_utf8(bytes).ok(),
        Err(_) => None,
    }
}

/// The encoding round trip: decoding the URL-safe encoding that a
/// confirmation link embeds yields the original token, for every token.
pub fn token_round_trip(token: &str) -> (r: String)
    ensures
        r@ == token@,
{
    let encoded = b64url_encode(token);
    match b64url_decode(encoded.as_str()) {
        Some(t) => t,
        None => {
            proof {
                assert(false);
            }
            String::new()
        },
    }
}

} // verus!
