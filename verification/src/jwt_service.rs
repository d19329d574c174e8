use vstd::prelude::*;

use crate::config::AppConfig;
use crate::errors::SpotitubeError;
use crate::user_id::UserId;

verus! {

/// The signed bearer token minted over the claims {sub: username, user_id}
/// with a symmetric secret. Deterministic: the claims carry no timestamp,
/// they are serialised in a fixed key order, and the signature is a MAC — so
/// the token is a function of the identifier, username and secret alone.
pub uninterp spec fn token_of(user_id: u128, username: Seq<char>, secret: Seq<char>) -> Seq<char>;

/// The claims recovered from a token under a secret: Some((id, subject))
/// exactly when the signature verifies, the payload parses, the subject
/// claim is present and the embedded identifier is a well-formed id; None
/// otherwise.
pub uninterp spec fn extracted_claims_of(token: Seq<char>, secret: Seq<char>) -> Option<
    (u128, Seq<char>),
>;

/// Relies on jsonwebtoken::encode with a default (HS256) header and a key
/// from EncodingKey::from_secret: the key family matches the header's
/// algorithm family and HMAC signing of the serialised claims cannot fail,
/// so encoding succeeds; the claims are held in an ordered map, so their
/// serialisation and hence the token is a function of the identifier,
/// username and secret alone. jsonwebtoken::decode with the same secret
/// returns the same claims, and uuid::Uuid round-trips from_u128 ->
/// to_string -> parse_str -> as_u128, so both claims are recovered from the
/// result.
#[verifier::external_body]
fn jwt_encode(user_id: UserId, username: &str, secret: &str) -> (r: Option<String>)
    ensures
        r is Some,
        r matches Some(t) ==> t@ == token_of(user_id.value, username@, secret@)
            && extracted_claims_of(t@, secret@) == Some((user_id.value, username@)),
{
    let mut claims: std::collections::BTreeMap<String, String> = std::collections::BTreeMap::new();
    claims.insert(String::from("sub"), String::from(username));
    claims.insert(String::from("user_id"), uuid::Uuid::from_u128(user_id.value).to_string());
    jsonwebtoken::encode(
        &jsonwebtoken::Header::default(),
        &claims,
        &jsonwebtoken::EncodingKey::from_secret(secret.as_bytes()),
    ).ok()
}

/// Relies on jsonwebtoken::decode over a claims map (HS256, expiry neither
/// required nor checked: the service sets no expiry claim) and
/// uuid::Uuid::parse_str: the outcome is a function of the token and secret
/// alone, and None exactly when the signature does not verify, the payload
/// does not parse, the subject claim is missing, or the embedded identifier
/// is not a well-formed id.
#[verifier::external_body]
fn jwt_decode_claims(token: &str, secret: &str) -> (r: Option<(u128, String)>)
    ensures
        r is Some <==> extracted_claims_of(token@, secret@) is Some,
        r matches Some(c) ==> extracted_claims_of(token@, secret@) == Some((c.0, c.1@)),
{
    let mut validation = jsonwebtoken::Validation::new(jsonwebtoken::Algorithm::HS256);
    validation.required_spec_claims.clear();
    validation.validate_exp = false;
    let key = jsonwebtoken::DecodingKey::from_secret(secret.as_bytes());
    let data = jsonwebtoken::decode::<std::collections::BTreeMap<String, String>>(
        token, &key, &validation,
    ).ok()?;
    let id = uuid::Uuid::parse_str(data.claims.get("user_id")?).ok()?.as_u128();
    Some((id, data.claims.get("sub")?.clone()))
}

/// The token issuer: creates and validates signed, time-unbounded bearer
/// tokens binding a user identity under the process-wide symmetric secret.
pub struct JwtService {
    pub config: AppConfig,
}

impl JwtService {
    pub fn new(config: AppConfig) -> (r: Self)
        ensures
            r.config == config,
    {
        Self { config }
    }

    /// Issues a signed token over {sub: username, user_id}. The token
    /// carries no expiry claim and stays valid until the secret changes, and
    /// validating it under the same secret recovers both claims. The claims
    /// hold no timestamp, so issuing again for the same identity yields the
    /// same bytes.
    pub fn new_token(&self, user_id: UserId, username: &str) -> (r: Result<String, SpotitubeError>)
        ensures
            r is Ok,
            r matches Ok(t) ==> t@ == token_of(
                user_id.value,
                username@,
                self.config.token_secret@,
            ) && extracted_claims_of(t@, self.config.token_secret@) == Some(
                (user_id.value, username@),
            ),
    {
        match jwt_encode(user_id, username, self.config.token_secret.as_str()) {
            Some(t) => Ok(t),
            None => Err(SpotitubeError::SigningFailure),
        }
    }

    /// Validates a token and extracts the bound identifier; fails with
    /// InvalidToken exactly when the signature does not verify, the payload
    /// does not parse, or the embedded claims are not well formed.
    pub fn get_user_id_from_token(&self, token: String) -> (r: Result<UserId, SpotitubeError>)
        ensures
            r is Ok <==> extracted_claims_of(token@, self.config.token_secret@) is Some,
            r matches Ok(u) ==> extracted_claims_of(token@, self.config.token_secret@) matches
                Some(c) && c.0 == u.value,
            r matches Err(e) ==> e is InvalidToken,
    {
        match jwt_decode_claims(token.as_str(), self.config.token_secret.as_str()) {
            Some(c) => Ok(UserId { value: c.0 }),
            None => Err(SpotitubeError::InvalidToken),
        }
    }
}

} // verus!
