use vstd::prelude::*;

use crate::errors::AppError;
use crate::query::{clone_opt_string, Bind, BindV, Statement};

verus! {

/// Message for an `email` or `username` below its minimum length.
pub const MSG_EMPTY: &'static str = "Can not be empty";

/// Message for a password below its minimum length.
pub const MSG_PASSWORD: &'static str = "Must be min 8 chars length";

/// Message for a user lookup that found nothing.
pub const MSG_USER_NOT_FOUND: &'static str = "User not found";

/// Message for an email already registered.
pub const MSG_EMAIL_EXISTS: &'static str = "An user with this email already exists";

/// Message for a username already registered.
pub const MSG_USERNAME_EXISTS: &'static str = "An user with this username already exists";

/// The SQL statement inserting a user.
pub const USER_INSERT_SQL: &'static str = "INSERT INTO users (name, email, username, password) VALUES ( $1, $2, $3, $4) RETURNING id, name, email, username, is_staff, avatar";

/// The SQL statement looking a user up by username and password.
pub const USER_FIND_SQL: &'static str = "SELECT id, name, email, username, is_staff, avatar FROM \"users\" WHERE username = $1 AND password = $2";

/// The SQL statement looking a user up by id.
pub const USER_FIND_BY_ID_SQL: &'static str = "SELECT id, name, email, username, is_staff, avatar FROM \"users\" WHERE id = $1";

/// The SQL statement listing a page of users, newest first.
pub const USER_LIST_SQL: &'static str = "SELECT id, name, email, username, is_staff, avatar FROM users ORDER BY id DESC LIMIT $1 OFFSET $2";

/// The SQL statement counting all users.
pub const USER_COUNT_SQL: &'static str = "SELECT COUNT(id) as count FROM users";

/// The SQL statement counting users holding a username.
pub const USERNAME_TAKEN_SQL: &'static str = "SELECT COUNT(id) as count FROM users WHERE username = $1";

/// The SQL statement counting users holding an email.
pub const EMAIL_TAKEN_SQL: &'static str = "SELECT COUNT(id) as count FROM users WHERE email = $1";

/// The SQL statement updating a user's avatar.
pub const USER_EDIT_AVATAR_SQL: &'static str = "UPDATE users SET avatar = $1 WHERE id = $2";

/// The SQL statement updating a user's editable fields.
pub const USER_EDIT_SQL: &'static str = "UPDATE users SET name = $1, username = $2, email = $3 WHERE id = $4";

/// User model
#[derive(Debug)]
pub struct User {
    pub id: i32,
    pub name: String,
    pub email: String,
    pub username: String,
    pub password: String,
    pub is_staff: Option<bool>,
    pub avatar: Option<String>,
}

/// Paylod used for user editing
#[derive(Debug)]
pub struct UserEdit {
    pub name: String,
    pub email: String,
    pub username: String,
    pub is_staff: Option<bool>,
}

/// Response used to print a user (or a users list)
#[derive(Debug)]
pub struct UserList {
    pub id: i32,
    pub name: String,
    pub email: String,
    pub username: String,
    pub is_staff: Option<bool>,
    pub avatar: Option<String>,
}

/// The lower-case hex encoding of the SHA-256 digest that
/// `sha256::digest` returns: a function of the input alone.
pub uninterp spec fn sha256_hex_of(s: Seq<char>) -> Seq<char>;

/// Relies on `sha256::digest`: the SHA-256 digest of the input as 64
/// lower-case hex characters.
#[verifier::external_body]
fn sha256_hex(s: &str) -> (r: String)
    ensures
        r@ == sha256_hex_of(s@),
        r@.len() == 64,
{
    sha256::digest(s)
}

impl User {
    /// Whether the record passes validation: `email` at least 4
    /// characters, `username` at least 2, `password` at least 8.
    pub open spec fn spec_valid(&self) -> bool {
        self.email@.len() >= 4 && self.username@.len() >= 2 && self.password@.len() >= 8
    }

    /// The message validation fails with, checking `email`, then
    /// `username`, then `password`.
    pub open spec fn spec_validation_error(&self) -> Seq<char> {
        if self.email@.len() < 4 {
            MSG_EMPTY@
        } else if self.username@.len() < 2 {
            MSG_EMPTY@
        } else {
            MSG_PASSWORD@
        }
    }

    /// By default an user has id = 0. It is not created yet
    pub fn new(name: String, email: String, username: String, password: String) -> (u: User)
        ensures
            u.id == 0,
            u.name@ == name@,
            u.email@ == email@,
            u.username@ == username@,
            u.password@ == password@,
            u.is_staff == Some(false),
            u.avatar is None,
    {
        User { id: 0, name, email, username, password, is_staff: Some(false), avatar: None }
    }

    /// Check the record's field lengths; a failure carries the message
    /// of the first field that is too short.
    pub fn validate(&self) -> (r: Result<(), AppError>)
        ensures
            r is Ok <==> self.spec_valid(),
            r matches Err(e) ==> (e matches AppError::BadRequest(m) && m@
                == self.spec_validation_error()),
    {
        if self.email.as_str().unicode_len() < 4 {
            Err(AppError::BadRequest(String::from_str(MSG_EMPTY)))
        } else if self.username.as_str().unicode_len() < 2 {
            Err(AppError::BadRequest(String::from_str(MSG_EMPTY)))
        } else if self.password.as_str().unicode_len() < 8 {
            Err(AppError::BadRequest(String::from_str(MSG_PASSWORD)))
        } else {
            Ok(())
        }
    }

    /// Create a new user from the model using a SHA256 crypted
    /// password: the insert statement to run, or the validation error.
    pub fn create(user: User) -> (r: Result<Statement, AppError>)
        ensures
            r is Ok <==> user.spec_valid(),
            r matches Ok(s) ==> s.sql@ == USER_INSERT_SQL@ && s@.binds =~= seq![
                BindV::Text(user.name@),
                BindV::Text(user.email@),
                BindV::Text(user.username@),
                BindV::Text(sha256_hex_of(user.password@)),
            ],
            r matches Err(e) ==> (e matches AppError::BadRequest(m) && m@
                == user.spec_validation_error()),
    {
        match user.validate() {
            Err(e) => Err(e),
            Ok(()) => {
                let crypted_password = sha256_hex(user.password.as_str());
                let mut binds: Vec<Bind> = Vec::new();
                binds.push(Bind::Text(user.name));
                binds.push(Bind::Text(user.email));
                binds.push(Bind::Text(user.username));
                binds.push(Bind::Text(crypted_password));
                Ok(Statement { sql: String::from_str(USER_INSERT_SQL), binds })
            },
        }
    }

    /// Find a user using the model. It used for login: the lookup
    /// matches the username and the SHA256 crypted password.
    pub fn find(user: User) -> (s: Statement)
        ensures
            s.sql@ == USER_FIND_SQL@,
            s@.binds =~= seq![
                BindV::Text(user.username@),
                BindV::Text(sha256_hex_of(user.password@)),
            ],
    {
        let crypted_password = sha256_hex(user.password.as_str());
        let mut binds: Vec<Bind> = Vec::new();
        binds.push(Bind::Text(user.username));
        binds.push(Bind::Text(crypted_password));
        Statement { sql: String::from_str(USER_FIND_SQL), binds }
    }

    /// The lookup for the user with id = `user_id`.
    pub fn find_by_id(user_id: i32) -> (s: Statement)
        ensures
            s.sql@ == USER_FIND_BY_ID_SQL@,
            s@.binds =~= seq![BindV::Id(user_id as int)],
    {
        let mut binds: Vec<Bind> = Vec::new();
        binds.push(Bind::Id(user_id));
        Statement { sql: String::from_str(USER_FIND_BY_ID_SQL), binds }
    }

    /// The listing of one page of users: `limit` rows starting at row
    /// `limit * page`, newest first.
    pub fn list(page: i64, limit: i64) -> (s: Statement)
        requires
            0 <= page,
            0 <= limit,
            limit * page <= i64::MAX,
        ensures
            s.sql@ == USER_LIST_SQL@,
            s@.binds =~= seq![BindV::Count(limit as int), BindV::Count(limit * page)],
    {
        let offset = crate::pagination::page_offset(limit, page);
        let mut binds: Vec<Bind> = Vec::new();
        binds.push(Bind::Count(limit));
        binds.push(Bind::Count(offset));
        Statement { sql: String::from_str(USER_LIST_SQL), binds }
    }

    /// The count of all users.
    pub fn count() -> (s: Statement)
        ensures
            s.sql@ == USER_COUNT_SQL@,
            s@.binds =~= Seq::<BindV>::empty(),
    {
        Statement { sql: String::from_str(USER_COUNT_SQL), binds: Vec::new() }
    }

    /// Prevent the "uniquess" Postgres fields check: the count of users
    /// already holding this username.
    pub fn username_has_taken(username: &String) -> (s: Statement)
        ensures
            s.sql@ == USERNAME_TAKEN_SQL@,
            s@.binds =~= seq![BindV::Text(username@)],
    {
        let mut binds: Vec<Bind> = Vec::new();
        binds.push(Bind::Text(username.clone()));
        Statement { sql: String::from_str(USERNAME_TAKEN_SQL), binds }
    }

    /// Prevent the "uniquess" Postgres fields check: the count of users
    /// already holding this email.
    pub fn email_has_taken(email: &String) -> (s: Statement)
        ensures
            s.sql@ == EMAIL_TAKEN_SQL@,
            s@.binds =~= seq![BindV::Text(email@)],
    {
        let mut binds: Vec<Bind> = Vec::new();
        binds.push(Bind::Text(email.clone()));
        Statement { sql: String::from_str(EMAIL_TAKEN_SQL), binds }
    }
}

/// Reading of a uniqueness count: the value is taken iff some row
/// already holds it.
pub fn has_taken(count: i64) -> (r: bool)
    ensures
        r == (count > 0),
{
    count > 0
}

impl UserList {
    /// Whether the record passes validation: `email` at least 4
    /// characters, `username` at least 2.
    pub open spec fn spec_valid(&self) -> bool {
        self.email@.len() >= 4 && self.username@.len() >= 2
    }

    /// The message validation fails with, checking `email`, then
    /// `username`.
    pub open spec fn spec_validation_error(&self) -> Seq<char> {
        MSG_EMPTY@
    }

    /// Whether the account has staff rights. The column is nullable;
    /// a record read back from the database always carries a value.
    pub fn staff(&self) -> (r: bool)
        requires
            self.is_staff is Some,
        ensures
            r == self.is_staff->0,
    {
        match self.is_staff {
            Some(b) => b,
            None => false,
        }
    }

    /// Check the record's field lengths; a failure carries the message
    /// of the first field that is too short.
    pub fn validate(&self) -> (r: Result<(), AppError>)
        ensures
            r is Ok <==> self.spec_valid(),
            r matches Err(e) ==> (e matches AppError::BadRequest(m) && m@
                == self.spec_validation_error()),
    {
        if self.email.as_str().unicode_len() < 4 {
            Err(AppError::BadRequest(String::from_str(MSG_EMPTY)))
        } else if self.username.as_str().unicode_len() < 2 {
            Err(AppError::BadRequest(String::from_str(MSG_EMPTY)))
        } else {
            Ok(())
        }
    }

    /// Edit an user avatar: the record takes the new value and the
    /// update statement to run is returned.
    pub fn edit_avatar(&mut self, avatar: Option<String>) -> (s: Statement)
        ensures
            final(self).id == old(self).id,
            final(self).name == old(self).name,
            final(self).email == old(self).email,
            final(self).username == old(self).username,
            final(self).is_staff == old(self).is_staff,
            match avatar {
                Some(a) => final(self).avatar matches Some(b) && b@ == a@,
                None => final(self).avatar is None,
            },
            s.sql@ == USER_EDIT_AVATAR_SQL@,
            s@.binds =~= seq![
                match avatar {
                    Some(a) => BindV::OptText(Some(a@)),
                    None => BindV::OptText(None),
                },
                BindV::Id(old(self).id as int),
            ],
    {
        let mut binds: Vec<Bind> = Vec::new();
        binds.push(Bind::OptText(clone_opt_string(&avatar)));
        binds.push(Bind::Id(self.id));
        self.avatar = avatar;
        Statement { sql: String::from_str(USER_EDIT_AVATAR_SQL), binds }
    }

    /// Edit an user. The assignments are made before the validation, so
    /// the record carries the payload even when the validation error is
    /// returned and the update is skipped.
    pub fn edit(&mut self, payload: UserEdit) -> (r: Result<Statement, AppError>)
        ensures
            final(self).id == old(self).id,
            final(self).name@ == payload.name@,
            final(self).username@ == payload.username@,
            final(self).email@ == payload.email@,
            final(self).is_staff == old(self).is_staff,
            final(self).avatar == old(self).avatar,
            r is Ok <==> final(self).spec_valid(),
            r matches Ok(s) ==> s.sql@ == USER_EDIT_SQL@ && s@.binds =~= seq![
                BindV::Text(payload.name@),
                BindV::Text(payload.username@),
                BindV::Text(payload.email@),
                BindV::Id(old(self).id as int),
            ],
            r matches Err(e) ==> (e matches AppError::BadRequest(m) && m@
                == final(self).spec_validation_error()),
    {
        self.name = payload.name.clone();
        self.username = payload.username.clone();
        self.email = payload.email.clone();

        match self.validate() {
            Err(e) => Err(e),
            Ok(()) => {
                let mut binds: Vec<Bind> = Vec::new();
                binds.push(Bind::Text(payload.name));
                binds.push(Bind::Text(payload.username));
                binds.push(Bind::Text(payload.email));
                binds.push(Bind::Id(self.id));
                Ok(Statement { sql: String::from_str(USER_EDIT_SQL), binds })
            },
        }
    }

    /// Get all models created by an user: the aggregate page of the
    /// models this user authored.
    pub fn get_models(&self, page: i64, limit: i64) -> (s: Statement)
        requires
            0 <= page,
            0 <= limit,
            limit * page <= i64::MAX,
        ensures
            s.sql@ == crate::model::models::MODEL_SELECT_SQL@
                + crate::model::models::MODEL_BY_AUTHOR_SQL@,
            s@.binds =~= seq![
                BindV::Id(self.id as int),
                BindV::Count(limit as int),
                BindV::Count(limit * page),
            ],
    {
        crate::model::models::Model::list_from_author(page, limit, self.id)
    }

    /// Returns the number of models for an user.
    pub fn count_models(&self) -> (s: Statement)
        ensures
            s.sql@ == crate::model::models::MODEL_COUNT_BY_AUTHOR_SQL@,
            s@.binds =~= seq![BindV::Id(self.id as int)],
    {
        crate::model::models::Model::count_filter_by_author(self.id)
    }
}

} // verus!
