use vstd::prelude::*;

use crate::errors::AppError;
use crate::query::{Bind, BindV, Statement};

verus! {

/// The SQL statement counting likes of a model by a user.
pub const LIKE_EXISTS_SQL: &'static str = "SELECT COUNT(id) as count FROM likes WHERE user_id = $1 AND model_id = $2";

/// The SQL statement inserting a like.
pub const LIKE_INSERT_SQL: &'static str = "INSERT INTO likes (user_id, model_id, created) VALUES ($1, $2, $3) RETURNING *";

/// The SQL statement deleting a like.
pub const LIKE_DELETE_SQL: &'static str = "DELETE FROM likes WHERE user_id = $1 AND model_id = $2";

/// Message for a like given twice.
pub const MSG_ALREADY_LIKES: &'static str = "This user already likes this model";

/// Message for a like removed while absent.
pub const MSG_LIKE_NOT_FOUND: &'static str = "Like not found";

/// Likes model
#[derive(Debug)]
pub struct Like {
    pub id: i32,
    pub user_id: i32,
    pub model_id: i32,
    pub created: i64,
}

impl Like {
    /// Create a new like, stamped with the current time.
    pub fn new(user_id: i32, model_id: i32) -> (l: Like)
        ensures
            l.id == 0,
            l.user_id == user_id,
            l.model_id == model_id,
    {
        let now = crate::clock::now_timestamp();
        Like { id: 0, user_id, model_id, created: now }
    }

    /// The count telling whether this user has already assigned a like
    /// to this model; the count is positive iff the like exists.
    pub fn exists_query(&self) -> (s: Statement)
        ensures
            s.sql@ == LIKE_EXISTS_SQL@,
            s@.binds =~= seq![BindV::Id(self.user_id as int), BindV::Id(self.model_id as int)],
    {
        let mut binds: Vec<Bind> = Vec::new();
        binds.push(Bind::Id(self.user_id));
        binds.push(Bind::Id(self.model_id));
        Statement { sql: String::from_str(LIKE_EXISTS_SQL), binds }
    }

    /// Save a new like: the insert statement to run, given whether the
    /// like already exists; a like given twice is a bad request.
    pub fn save(&self, already_exists: bool) -> (r: Result<Statement, AppError>)
        ensures
            r is Ok <==> !already_exists,
            r matches Ok(s) ==> s.sql@ == LIKE_INSERT_SQL@ && s@.binds =~= seq![
                BindV::Id(self.user_id as int),
                BindV::Id(self.model_id as int),
                BindV::Timestamp(self.created as int),
            ],
            r matches Err(e) ==> (e matches AppError::BadRequest(m) && m@ == MSG_ALREADY_LIKES@),
    {
        if already_exists {
            return Err(AppError::BadRequest(String::from_str(MSG_ALREADY_LIKES)));
        }
        let mut binds: Vec<Bind> = Vec::new();
        binds.push(Bind::Id(self.user_id));
        binds.push(Bind::Id(self.model_id));
        binds.push(Bind::Timestamp(self.created));
        Ok(Statement { sql: String::from_str(LIKE_INSERT_SQL), binds })
    }

    /// Remove a like: the delete statement to run, given whether the
    /// like exists; removing an absent like is not found.
    pub fn remove(&self, already_exists: bool) -> (r: Result<Statement, AppError>)
        ensures
            r is Ok <==> already_exists,
            r matches Ok(s) ==> s.sql@ == LIKE_DELETE_SQL@ && s@.binds =~= seq![
                BindV::Id(self.user_id as int),
                BindV::Id(self.model_id as int),
            ],
            r matches Err(e) ==> (e matches AppError::NotFound(m) && m@ == MSG_LIKE_NOT_FOUND@),
    {
        if !already_exists {
            return Err(AppError::NotFound(String::from_str(MSG_LIKE_NOT_FOUND)));
        }
        let mut binds: Vec<Bind> = Vec::new();
        binds.push(Bind::Id(self.user_id));
        binds.push(Bind::Id(self.model_id));
        Ok(Statement { sql: String::from_str(LIKE_DELETE_SQL), binds })
    }
}

} // verus!
