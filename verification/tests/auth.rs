use verden::auth::models::{AuthBody, Claims, SignUpForm, TOKEN_LIFETIME_SECONDS};
use verden::auth::routes::{login_query, make_login, signup};
use verden::errors::AppError;
use verden::query::Bind;
use verden::user::models::{User, UserList, USER_FIND_SQL};

fn staffer(id: i32) -> UserList {
    UserList {
        id,
        name: "Admin".to_string(),
        email: "admin@example.com".to_string(),
        username: "admin".to_string(),
        is_staff: Some(true),
        avatar: None,
    }
}

fn plain_user(id: i32) -> UserList {
    UserList {
        id,
        name: "Jane".to_string(),
        email: "jane@example.com".to_string(),
        username: "jane".to_string(),
        is_staff: Some(false),
        avatar: None,
    }
}

fn form(p1: &str, p2: &str) -> SignUpForm {
    SignUpForm {
        name: "Jane".to_string(),
        email: "jane@example.com".to_string(),
        username: "jane".to_string(),
        password1: p1.to_string(),
        password2: p2.to_string(),
    }
}

#[test]
fn claims_expire_one_day_after_now() {
    let c = Claims::with_expiry(7, 1_000_000);
    assert_eq!(c.user_id, 7);
    assert_eq!(c.exp, 1_000_000 + TOKEN_LIFETIME_SECONDS);
}

#[test]
fn token_round_trip_recovers_the_claims() {
    let secret = b"a-test-secret";
    let now = jsonwebtoken::get_current_timestamp();
    let claims = Claims::with_expiry(42, now);
    let token = claims.get_token(secret).expect("encoding succeeds");
    let back = Claims::from_token(&token, secret).expect("fresh token decodes");
    assert_eq!(back.user_id, 42);
    assert_eq!(back.exp, claims.exp);
}

#[test]
fn token_under_another_secret_is_invalid() {
    let now = jsonwebtoken::get_current_timestamp();
    let token = Claims::with_expiry(42, now).get_token(b"secret-one").unwrap();
    let r = Claims::from_token(&token, b"secret-two");
    assert!(matches!(r, Err(AppError::InvalidToken)));
}

#[test]
fn expired_token_is_invalid() {
    let secret = b"a-test-secret";
    // Expired well past the validation leeway.
    let token = Claims { user_id: 42, exp: 1000 }.get_token(secret).unwrap();
    let r = Claims::from_token(&token, secret);
    assert!(matches!(r, Err(AppError::InvalidToken)));
}

#[test]
fn garbage_token_is_invalid() {
    let r = Claims::from_token("not.a.token", b"a-test-secret");
    assert!(matches!(r, Err(AppError::InvalidToken)));
}

#[test]
fn auth_body_wraps_a_bearer_token() {
    let b = AuthBody::new("tok".to_string());
    assert_eq!(b.access_token, "tok");
    assert_eq!(b.token_type, "Bearer");
}

#[test]
fn login_query_binds_username_and_crypted_password() {
    let s = login_query(verden::auth::models::LoginCredentials {
        username: "jane".to_string(),
        password: "hunter2-hunter2".to_string(),
    });
    assert_eq!(s.sql, USER_FIND_SQL);
    assert_eq!(s.binds.len(), 2);
    assert_eq!(s.binds[0], Bind::Text("jane".to_string()));
    // The password is crypted, never bound as it came in.
    assert_eq!(s.binds[1], Bind::Text(sha256::digest("hunter2-hunter2")));
}

#[test]
fn login_of_unknown_credentials_is_not_found() {
    let r = make_login(None, b"a-test-secret");
    assert_eq!(r.unwrap_err(), AppError::NotFound("User not found".to_string()));
}

#[test]
fn login_of_found_user_yields_a_decodable_token() {
    let secret = b"a-test-secret";
    let body = make_login(Some(plain_user(9)), secret).expect("login succeeds");
    assert_eq!(body.token_type, "Bearer");
    let claims = Claims::from_token(&body.access_token, secret).expect("fresh token decodes");
    assert_eq!(claims.user_id, 9);
}

#[test]
fn signup_rejects_mismatched_passwords() {
    let r = signup(form("password-one", "password-two"), false, false);
    assert_eq!(
        r.unwrap_err(),
        AppError::BadRequest("The inserted passwords do not match".to_string())
    );
}

#[test]
fn signup_rejects_taken_email() {
    let r = signup(form("same-password", "same-password"), true, false);
    assert_eq!(
        r.unwrap_err(),
        AppError::BadRequest("An user with this email already exists".to_string())
    );
}

#[test]
fn signup_rejects_taken_username() {
    let r = signup(form("same-password", "same-password"), false, true);
    assert_eq!(
        r.unwrap_err(),
        AppError::BadRequest("An user with this username already exists".to_string())
    );
}

#[test]
fn signup_builds_the_new_user() {
    let u = signup(form("same-password", "same-password"), false, false).expect("signup passes");
    assert_eq!(u.id, 0);
    assert_eq!(u.name, "Jane");
    assert_eq!(u.email, "jane@example.com");
    assert_eq!(u.username, "jane");
    assert_eq!(u.password, "same-password");
    assert_eq!(u.is_staff, Some(false));
    assert!(u.avatar.is_none());
}

#[test]
fn user_new_is_a_blank_member_record() {
    let u = User::new(
        "Jane".to_string(),
        "jane@example.com".to_string(),
        "jane".to_string(),
        "long-password".to_string(),
    );
    assert_eq!(u.id, 0);
    assert_eq!(u.is_staff, Some(false));
    assert!(u.avatar.is_none());
}

#[test]
fn staff_flag_reads_the_column() {
    assert!(staffer(1).staff());
    assert!(!plain_user(1).staff());
}
