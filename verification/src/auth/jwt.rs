//! Login tokens: HS512 JSON web tokens whose claims hold a user identifier
//! (`uid`) and an expiry time (`exp`), signed with the user's secret.
use jsonwebtoken::{Algorithm, DecodingKey, EncodingKey, Header, Validation};
use vstd::prelude::*;

verus! {

/// The `uid` claim of a token: the `uid` member, when it is a string, of the
/// JSON object that the token's payload part (the base64url text between
/// its last two `.`) holds.
pub uninterp spec fn spec_jwt_payload_uid(token: Seq<char>) -> Option<Seq<char>>;

/// Whether a token is signed with a secret: its header names HS512 and its
/// last part is the HMAC-SHA512 signature, keyed by the secret's bytes, of
/// what comes before its last `.`.
pub uninterp spec fn spec_jwt_signed_with(token: Seq<char>, secret: Seq<char>) -> bool;

/// The time `days` days from now in seconds since the epoch, as a claim
/// holds it (chrono's `Utc::now().checked_add_signed(Duration::days(..))`,
/// then `timestamp`, cast to `u64`); `None` when that time is out of
/// chrono's range. Nothing is stated of the result: it rests on the clock.
/// `Duration::days` panics past `i64::MAX` milliseconds, which the
/// `requires` leaves out.
#[verifier::external_body]
pub(crate) fn expiry_after_days(days: i64) -> (r: Option<u64>)
    requires
        0 <= days <= 106_751_991_167,
{
    chrono::Utc::now().checked_add_signed(chrono::Duration::days(days)).map(|t| t.timestamp() as u64)
}

/// A token with the claims `uid` and `exp`, signed with HS512 under the
/// secret (jsonwebtoken's `encode` with an HS512 header, the claims as a
/// JSON object and `EncodingKey::from_secret` of the secret's bytes); an
/// error of jsonwebtoken is given as its text. The contract states that a
/// token it gives holds `uid` and is signed with the secret; the `exp`
/// claim is left unsaid.
#[verifier::external_body]
pub(crate) fn jwt_encode(uid: &str, exp: u64, secret: &str) -> (r: Result<String, String>)
    ensures
        r matches Ok(t) ==> spec_jwt_payload_uid(t@) == Some(uid@) && spec_jwt_signed_with(
            t@,
            secret@,
        ),
{
    let mut claims = serde_json::Map::new();
    claims.insert("uid".to_string(), serde_json::Value::String(uid.to_string()));
    claims.insert("exp".to_string(), serde_json::Value::from(exp));
    let key = EncodingKey::from_secret(secret.as_bytes());
    jsonwebtoken::encode(&Header::new(Algorithm::HS512), &claims, &key).map_err(|e| e.to_string())
}

/// The `uid` claim of a token, read without checking its signature
/// (jsonwebtoken's `decode` with HS512 validation and signature checks
/// switched off). It is `None` when the token cannot be read, its `exp`
/// claim is missing or past, or its `uid` claim is not a string. The
/// contract states that a `uid` it gives is the token's; whether it gives
/// one rests on the clock too, and is left unsaid.
#[verifier::external_body]
pub(crate) fn jwt_claimed_uid(token: &str) -> (r: Option<String>)
    ensures
        r matches Some(u) ==> spec_jwt_payload_uid(token@) == Some(u@),
{
    let mut unchecked = Validation::new(Algorithm::HS512);
    unchecked.insecure_disable_signature_validation();
    let key = DecodingKey::from_secret("noverify".as_bytes());
    match jsonwebtoken::decode::<serde_json::Value>(token, &key, &unchecked) {
        Ok(t) => t.claims.get("uid").and_then(|u| u.as_str()).map(|u| u.to_string()),
        Err(_) => None,
    }
}

/// The `uid` claim of a token, once its HS512 signature under the secret
/// is checked (jsonwebtoken's `decode` with HS512 validation and
/// `DecodingKey::from_secret` of the secret's bytes). It is `None` when the
/// token cannot be read, is not signed so, its `exp` claim is missing or
/// past, or its `uid` claim is not a string. The contract states that a
/// `uid` it gives is the token's and that the token is signed with the
/// secret; whether it gives one rests on the clock too, and is left unsaid.
#[verifier::external_body]
pub(crate) fn jwt_verified_uid(token: &str, secret: &str) -> (r: Option<String>)
    ensures
        r matches Some(u) ==> spec_jwt_payload_uid(token@) == Some(u@) && spec_jwt_signed_with(
            token@,
            secret@,
        ),
{
    let key = DecodingKey::from_secret(secret.as_bytes());
    match jsonwebtoken::decode::<serde_json::Value>(token, &key, &Validation::new(Algorithm::HS512)) {
        Ok(t) => t.claims.get("uid").and_then(|u| u.as_str()).map(|u| u.to_string()),
        Err(_) => None,
    }
}

} // verus!
