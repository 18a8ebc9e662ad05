use vstd::prelude::*;

use crate::errors::AppError;

verus! {

/// How long a token lives, in seconds: one day.
pub const TOKEN_LIFETIME_SECONDS: u64 = 86400;

/// Claims struct: the decoded token payload identifying the requesting
/// user.
#[derive(Debug, PartialEq, Eq, Structural, Clone, Copy)]
pub struct Claims {
    /// ID from the user model
    pub user_id: i32,
    /// Expiration timestamp, Unix seconds
    pub exp: u64,
}

/// Body used as response to login
#[derive(Debug)]
pub struct AuthBody {
    /// Access token string
    pub access_token: String,
    /// "Bearer" string
    pub token_type: String,
}

/// Payload used for login
#[derive(Debug)]
pub struct LoginCredentials {
    pub username: String,
    pub password: String,
}

/// Payload used for user creation
#[derive(Debug)]
pub struct SignUpForm {
    pub name: String,
    pub email: String,
    pub username: String,
    pub password1: String,
    pub password2: String,
}

/// The compact encoding `jsonwebtoken::encode` produces with the
/// default HS256 header for the claims object
/// `{"user_id": user_id, "exp": exp}` signed with `secret`.
pub uninterp spec fn jwt_of(secret: Seq<u8>, user_id: int, exp: int) -> Seq<char>;

/// The claims a token carries for `jsonwebtoken::decode` under
/// `secret`: `Some((user_id, exp))` when the signature verifies and the
/// payload holds those two fields, `None` otherwise.
pub uninterp spec fn jwt_payload_of(secret: Seq<u8>, token: Seq<char>) -> Option<(int, int)>;

/// Relies on `jsonwebtoken::encode` with HS256: the token depends on
/// the claims and the secret alone, and `jsonwebtoken::decode` under
/// the same secret recovers exactly the claims that were encoded.
/// Encoding cannot fail here: an HS256 secret key accepts any length,
/// and serializing the default header and a plain JSON object cannot
/// err.
#[verifier::external_body]
fn jwt_encode(user_id: i32, exp: u64, secret: &[u8]) -> (r: Option<String>)
    ensures
        r is Some,
        r matches Some(t) ==> t@ == jwt_of(secret@, user_id as int, exp as int),
        r matches Some(t) ==> jwt_payload_of(secret@, t@) == Some((user_id as int, exp as int)),
{
    let mut claims = serde_json::Map::new();
    claims.insert("user_id".to_string(), serde_json::Value::from(user_id));
    claims.insert("exp".to_string(), serde_json::Value::from(exp));
    let key = jsonwebtoken::EncodingKey::from_secret(secret);
    let header = jsonwebtoken::Header::default();
    jsonwebtoken::encode(&header, &serde_json::Value::Object(claims), &key).ok()
}

/// Relies on `jsonwebtoken::decode` with the default validation (HS256,
/// `exp` required and checked against the clock): on success the
/// returned pair is the payload the token carries under this secret;
/// a malformed or expired token, or one whose signature does not match,
/// yields `None`.
#[verifier::external_body]
fn jwt_decode(token: &str, secret: &[u8]) -> (r: Option<(i32, u64)>)
    ensures
        r matches Some(c) ==> jwt_payload_of(secret@, token@) == Some((c.0 as int, c.1 as int)),
{
    let key = jsonwebtoken::DecodingKey::from_secret(secret);
    let validation = jsonwebtoken::Validation::default();
    let data = jsonwebtoken::decode::<serde_json::Value>(token, &key, &validation).ok()?;
    let user_id = data.claims.get("user_id")?.as_i64()?;
    let exp = data.claims.get("exp")?.as_u64()?;
    Some((i32::try_from(user_id).ok()?, exp))
}

impl Claims {
    /// Claims for `user_id` that expire `TOKEN_LIFETIME_SECONDS` after
    /// the moment `now`.
    pub fn with_expiry(user_id: i32, now: u64) -> (c: Claims)
        requires
            now + TOKEN_LIFETIME_SECONDS <= u64::MAX,
        ensures
            c.user_id == user_id,
            c.exp == now + TOKEN_LIFETIME_SECONDS,
    {
        Claims { user_id, exp: now + TOKEN_LIFETIME_SECONDS }
    }

    /// Create a new Claim using the `user_id` and the current timestamp
    /// plus one day.
    pub fn new(user_id: i32) -> (c: Claims)
        ensures
            c.user_id == user_id,
            c.exp >= TOKEN_LIFETIME_SECONDS,
    {
        let t = crate::clock::now_timestamp();
        let now: u64 = if t < 0 {
            0
        } else {
            t as u64
        };
        Claims::with_expiry(user_id, now)
    }

    /// Returns the token as a string; encoding under a secret key
    /// always succeeds. A token that is not encoded would raise an
    /// `AppError::TokenCreation`.
    pub fn get_token(&self, secret: &[u8]) -> (r: Result<String, AppError>)
        ensures
            r is Ok,
            r matches Ok(t) ==> t@ == jwt_of(secret@, self.user_id as int, self.exp as int),
            r matches Ok(t) ==> jwt_payload_of(secret@, t@) == Some(
                (self.user_id as int, self.exp as int),
            ),
            r matches Err(e) ==> e == AppError::TokenCreation,
    {
        match jwt_encode(self.user_id, self.exp, secret) {
            Some(token) => Ok(token),
            None => Err(AppError::TokenCreation),
        }
    }

    /// Decode a bearer token and check its validity. A token that does
    /// not verify yields an `AppError::InvalidToken`.
    pub fn from_token(token: &str, secret: &[u8]) -> (r: Result<Claims, AppError>)
        ensures
            r matches Ok(c) ==> jwt_payload_of(secret@, token@) == Some(
                (c.user_id as int, c.exp as int),
            ),
            r matches Err(e) ==> e == AppError::InvalidToken,
    {
        match jwt_decode(token, secret) {
            Some(payload) => Ok(Claims { user_id: payload.0, exp: payload.1 }),
            None => Err(AppError::InvalidToken),
        }
    }
}

impl AuthBody {
    /// Wrap a fresh access token with its "Bearer" type.
    pub fn new(access_token: String) -> (b: AuthBody)
        ensures
            b.access_token@ == access_token@,
            b.token_type@ == "Bearer"@,
    {
        AuthBody { access_token, token_type: String::from_str("Bearer") }
    }
}

} // verus!
