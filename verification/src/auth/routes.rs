use vstd::prelude::*;

use crate::auth::models::{jwt_of, jwt_payload_of, AuthBody, Claims, LoginCredentials, SignUpForm};
use crate::errors::AppError;
use crate::query::{BindV, Statement};
use crate::user::models::{
    sha256_hex_of, User, UserList, MSG_EMAIL_EXISTS, MSG_USERNAME_EXISTS, MSG_USER_NOT_FOUND,
    USER_FIND_SQL,
};

verus! {

/// Message for a signup whose two passwords differ.
pub const MSG_PASSWORDS_MISMATCH: &'static str = "The inserted passwords do not match";

/// The lookup the login endpoint runs: the credentials' username with
/// the SHA256 crypted password.
pub fn login_query(payload: LoginCredentials) -> (s: Statement)
    ensures
        s.sql@ == USER_FIND_SQL@,
        s@.binds =~= seq![
            BindV::Text(payload.username@),
            BindV::Text(sha256_hex_of(payload.password@)),
        ],
{
    let user = User::new(String::new(), String::new(), payload.username, payload.password);
    User::find(user)
}

/// A fresh bearer token for `user_id`: the body answering a login or a
/// signup. Encoding always succeeds; a token that could not be encoded
/// would be a token-creation error.
pub fn auth_body_for(user_id: i32, secret: &[u8]) -> (r: Result<AuthBody, AppError>)
    ensures
        r is Ok,
        r matches Ok(b) ==> b.token_type@ == "Bearer"@ && (exists|exp: int|
            b.access_token@ == jwt_of(secret@, user_id as int, exp) && #[trigger] jwt_payload_of(
                secret@,
                b.access_token@,
            ) == Some((user_id as int, exp))),
        r matches Err(e) ==> e == AppError::TokenCreation,
{
    let claims = Claims::new(user_id);
    match claims.get_token(secret) {
        Ok(token) => {
            let body = AuthBody::new(token);
            proof {
                assert(body.access_token@ == jwt_of(secret@, user_id as int, claims.exp as int)
                    && jwt_payload_of(secret@, body.access_token@) == Some(
                    (user_id as int, claims.exp as int),
                ));
            }
            Ok(body)
        },
        Err(e) => Err(e),
    }
}

/// Make login: what the login endpoint answers once the credentials'
/// lookup has come back. An unknown pair is not found; a found user
/// gets a fresh bearer token.
pub fn make_login(found: Option<UserList>, secret: &[u8]) -> (r: Result<AuthBody, AppError>)
    ensures
        found is None ==> (r matches Err(e) && e matches AppError::NotFound(m) && m@
            == MSG_USER_NOT_FOUND@),
        found is Some ==> r is Ok,
        found matches Some(u) ==> match r {
            Ok(b) => b.token_type@ == "Bearer"@ && (exists|exp: int|
                b.access_token@ == jwt_of(secret@, u.id as int, exp) && #[trigger] jwt_payload_of(
                    secret@,
                    b.access_token@,
                ) == Some((u.id as int, exp))),
            Err(e) => e == AppError::TokenCreation,
        },
{
    match found {
        None => Err(AppError::NotFound(String::from_str(MSG_USER_NOT_FOUND))),
        Some(user) => auth_body_for(user.id, secret),
    }
}

/// Create a new user: the checks the signup endpoint makes before the
/// insert. Mismatched passwords, a taken email and a taken username are
/// bad requests, in that order; otherwise the user record to create.
pub fn signup(payload: SignUpForm, email_taken: bool, username_taken: bool) -> (r: Result<
    User,
    AppError,
>)
    ensures
        payload.password1@ != payload.password2@ ==> (r matches Err(e) && e
            matches AppError::BadRequest(m) && m@ == MSG_PASSWORDS_MISMATCH@),
        payload.password1@ == payload.password2@ && email_taken ==> (r matches Err(e) && e
            matches AppError::BadRequest(m) && m@ == MSG_EMAIL_EXISTS@),
        payload.password1@ == payload.password2@ && !email_taken && username_taken ==> (r
            matches Err(e) && e matches AppError::BadRequest(m) && m@ == MSG_USERNAME_EXISTS@),
        payload.password1@ == payload.password2@ && !email_taken && !username_taken ==> (r
            matches Ok(u) && u.id == 0 && u.name@ == payload.name@ && u.email@ == payload.email@
            && u.username@ == payload.username@ && u.password@ == payload.password1@ && u.is_staff
            == Some(false) && u.avatar is None),
{
    if !(payload.password1 == payload.password2) {
        return Err(AppError::BadRequest(String::from_str(MSG_PASSWORDS_MISMATCH)));
    }
    if email_taken {
        return Err(AppError::BadRequest(String::from_str(MSG_EMAIL_EXISTS)));
    }
    if username_taken {
        return Err(AppError::BadRequest(String::from_str(MSG_USERNAME_EXISTS)));
    }
    Ok(User::new(payload.name, payload.email, payload.username, payload.password1))
}

} // verus!
