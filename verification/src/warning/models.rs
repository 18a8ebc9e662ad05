use vstd::prelude::*;

use crate::errors::AppError;
use crate::query::{opt_id_view, Bind, BindV, Statement};
use crate::user::models::UserList;

verus! {

/// The select over warnings: each row carries the warning's columns
/// plus the reporting user and the resolving user as JSON objects.
pub const WARNING_SELECT_SQL: &'static str = "SELECT warnings.*, json_build_object('id', users.id, 'name', users.name, 'email', users.email, 'username', users.username, 'is_staff', users.is_staff, 'avatar', users.avatar) as user, coalesce(r.data, '{}'::json) as resolved FROM warnings JOIN users ON users.id = warnings.user_id LEFT JOIN ( SELECT id, json_build_object('id', r.id, 'name', r.name, 'email', r.email, 'username', r.username, 'is_staff', r.is_staff, 'avatar', r.avatar) as data FROM users r ) r ON r.id = warnings.resolved_by";

/// The SQL statement counting warnings.
pub const WARNING_COUNT_SQL: &'static str = "SELECT COUNT(id) as count FROM warnings";

/// The SQL statement inserting a warning.
pub const WARNING_INSERT_SQL: &'static str = "INSERT INTO warnings (user_id, model_id, resolved_by, note, admin_note, created, updated) VALUES ( $1, $2, $3, $4, $5, $6, $7) RETURNING *";

/// The SQL statement deleting a warning.
pub const WARNING_DELETE_SQL: &'static str = "DELETE FROM warnings WHERE id = $1";

/// The SQL statement updating a warning's resolution.
pub const WARNING_EDIT_SQL: &'static str = "UPDATE warnings SET admin_note = $1, resolved_by = $2, updated = $3 WHERE id = $4";

/// Model for warnings.
#[derive(Debug)]
pub struct Warning {
    pub id: i32,
    pub user_id: Option<i32>,
    pub model_id: Option<i32>,
    pub resolved_by: Option<i32>,
    pub note: String,
    pub admin_note: String,
    pub created: i64,
    pub updated: i64,
}

/// One row of the warning select: a warning with its reporting user
/// and, when resolved, the resolving user.
#[derive(Debug)]
pub struct WarningUser {
    pub id: i32,
    pub user_id: Option<i32>,
    pub model_id: Option<i32>,
    pub resolved_by: Option<i32>,
    pub note: String,
    pub admin_note: String,
    pub created: i64,
    pub updated: i64,
    pub user: Option<UserList>,
    pub resolved: Option<UserList>,
}

/// Payload used to create a new warning
#[derive(Debug)]
pub struct WarningCreate {
    pub model_id: i32,
    pub note: String,
}

/// Payload used to edit a warning
#[derive(Debug)]
pub struct WarningEdit {
    pub admin_note: String,
    pub resolved_by: Option<i32>,
}

/// Payload used for warning filtering
#[derive(Debug, Clone, Copy)]
pub struct WarningFilterPayload {
    pub model_id: Option<i32>,
    pub resolved_by: Option<i32>,
}

/// Struct used as argument for filtering by the backend. A filter
/// selects by suspect model, or else by resolver (unresolved warnings
/// when none is given), and may further restrict to one reporting user.
#[derive(Debug, Clone, Copy, PartialEq, Eq, Structural)]
pub struct WarningFilter {
    pub model_id: Option<i32>,
    pub resolved_by: Option<i32>,
    pub user_id: Option<i32>,
}

/// The WHERE clause a filter selects by: the suspect model when one is
/// given, else the resolver, else the unresolved warnings.
pub open spec fn spec_filter_where(args: WarningFilter) -> Seq<char> {
    if args.model_id is Some {
        " WHERE model_id = $1"@
    } else if args.resolved_by is Some {
        " WHERE warnings.resolved_by = $1"@
    } else {
        " WHERE warnings.resolved_by IS NULL"@
    }
}

/// The tail of a filter's rows statement: the reporting-user
/// restriction when one is given, then the page window, with the
/// placeholders numbered after those of the WHERE clause.
pub open spec fn spec_filter_tail(args: WarningFilter) -> Seq<char> {
    if args.user_id is Some {
        if args.model_id is Some || args.resolved_by is Some {
            " AND user_id = $2 ORDER BY id DESC LIMIT $3 OFFSET $4"@
        } else {
            " AND user_id = $1 ORDER BY id DESC LIMIT $2 OFFSET $3"@
        }
    } else {
        if args.model_id is Some || args.resolved_by is Some {
            " ORDER BY id DESC LIMIT $2 OFFSET $3"@
        } else {
            " ORDER BY id DESC LIMIT $1 OFFSET $2"@
        }
    }
}

/// The values a filter's WHERE clause and user restriction bind, in
/// placeholder order.
pub open spec fn spec_count_binds(args: WarningFilter) -> Seq<BindV> {
    (if args.model_id is Some {
        seq![BindV::Id(args.model_id->0 as int)]
    } else if args.resolved_by is Some {
        seq![BindV::Id(args.resolved_by->0 as int)]
    } else {
        Seq::<BindV>::empty()
    }) + (if args.user_id is Some {
        seq![BindV::Id(args.user_id->0 as int)]
    } else {
        Seq::<BindV>::empty()
    })
}

/// The values a filter's rows statement binds: the WHERE clause's
/// values, then the page window.
pub open spec fn spec_filter_binds(args: WarningFilter, limit: int, offset: int) -> Seq<BindV> {
    spec_count_binds(args) + seq![BindV::Count(limit), BindV::Count(offset)]
}

impl Warning {
    /// Create a warning means create an object which has an `user_id`
    /// (creator of the warning), a `model_id` (suspect model) and a
    /// `note`; it is stamped with the current time.
    pub fn new(user_id: i32, model_id: i32, note: String) -> (w: Warning)
        ensures
            w.id == 0,
            w.user_id == Some(user_id),
            w.model_id == Some(model_id),
            w.resolved_by is None,
            w.note@ == note@,
            w.admin_note@ == Seq::<char>::empty(),
            w.created == w.updated,
    {
        let now = crate::clock::now_timestamp();
        Warning {
            id: 0,
            user_id: Some(user_id),
            model_id: Some(model_id),
            resolved_by: None,
            note,
            admin_note: String::new(),
            created: now,
            updated: now,
        }
    }

    /// The deletion of the warning with id = `warning_id`.
    pub fn delete(warning_id: i32) -> (s: Statement)
        ensures
            s.sql@ == WARNING_DELETE_SQL@,
            s@.binds =~= seq![BindV::Id(warning_id as int)],
    {
        let mut binds: Vec<Bind> = Vec::new();
        binds.push(Bind::Id(warning_id));
        Statement { sql: String::from_str(WARNING_DELETE_SQL), binds }
    }

    /// The listing of one page of warnings, newest first: all of them,
    /// or those reported by one user. A staffer can see all the
    /// warnings, a user cannot.
    pub fn list(page: i64, limit: i64, user_id: Option<i32>) -> (s: Statement)
        requires
            0 <= page,
            0 <= limit,
            limit * page <= i64::MAX,
        ensures
            match user_id {
                Some(id) => s.sql@ == WARNING_SELECT_SQL@
                    + " WHERE user_id = $1 ORDER BY id DESC LIMIT $2 OFFSET $3"@ && s@.binds =~= seq![
                    BindV::Id(id as int),
                    BindV::Count(limit as int),
                    BindV::Count(limit * page),
                ],
                None => s.sql@ == WARNING_SELECT_SQL@ + " ORDER BY id DESC LIMIT $1 OFFSET $2"@
                    && s@.binds =~= seq![BindV::Count(limit as int), BindV::Count(limit * page)],
            },
    {
        let offset = crate::pagination::page_offset(limit, page);
        let mut sql = String::from_str(WARNING_SELECT_SQL);
        let mut binds: Vec<Bind> = Vec::new();
        match user_id {
            Some(id) => {
                sql.append(" WHERE user_id = $1 ORDER BY id DESC LIMIT $2 OFFSET $3");
                binds.push(Bind::Id(id));
            },
            None => {
                sql.append(" ORDER BY id DESC LIMIT $1 OFFSET $2");
            },
        }
        binds.push(Bind::Count(limit));
        binds.push(Bind::Count(offset));
        Statement { sql, binds }
    }

    /// The lookup for the warning with id = `warning_id`.
    pub fn find_by_id(warning_id: i32) -> (s: Statement)
        ensures
            s.sql@ == WARNING_SELECT_SQL@ + " WHERE warnings.id = $1"@,
            s@.binds =~= seq![BindV::Id(warning_id as int)],
    {
        let mut sql = String::from_str(WARNING_SELECT_SQL);
        sql.append(" WHERE warnings.id = $1");
        let mut binds: Vec<Bind> = Vec::new();
        binds.push(Bind::Id(warning_id));
        Statement { sql, binds }
    }

    /// The count of warnings: all of them, or those reported by one
    /// user.
    pub fn count(user_id: Option<i32>) -> (s: Statement)
        ensures
            match user_id {
                Some(id) => s.sql@ == WARNING_COUNT_SQL@ + " WHERE user_id = $1"@ && s@.binds
                    =~= seq![BindV::Id(id as int)],
                None => s.sql@ == WARNING_COUNT_SQL@ && s@.binds =~= Seq::<BindV>::empty(),
            },
    {
        let mut sql = String::from_str(WARNING_COUNT_SQL);
        let mut binds: Vec<Bind> = Vec::new();
        match user_id {
            Some(id) => {
                sql.append(" WHERE user_id = $1");
                binds.push(Bind::Id(id));
            },
            None => {},
        }
        Statement { sql, binds }
    }

    /// Create a new warning: the insert statement to run.
    pub fn create(warning: Warning) -> (s: Statement)
        ensures
            s.sql@ == WARNING_INSERT_SQL@,
            s@.binds =~= seq![
                BindV::OptId(opt_id_view(warning.user_id)),
                BindV::OptId(opt_id_view(warning.model_id)),
                BindV::OptId(opt_id_view(warning.resolved_by)),
                BindV::Text(warning.note@),
                BindV::Text(warning.admin_note@),
                BindV::Timestamp(warning.created as int),
                BindV::Timestamp(warning.updated as int),
            ],
    {
        let mut binds: Vec<Bind> = Vec::new();
        binds.push(Bind::OptId(warning.user_id));
        binds.push(Bind::OptId(warning.model_id));
        binds.push(Bind::OptId(warning.resolved_by));
        binds.push(Bind::Text(warning.note));
        binds.push(Bind::Text(warning.admin_note));
        binds.push(Bind::Timestamp(warning.created));
        binds.push(Bind::Timestamp(warning.updated));
        Statement { sql: String::from_str(WARNING_INSERT_SQL), binds }
    }

    /// Filter warnings. Pass a `WarningFilter` argument: you can filter
    /// by model_id or (not both) by resolver; the rows come newest
    /// first in a page window.
    pub fn filter(page: i64, limit: i64, args: WarningFilter) -> (s: Statement)
        requires
            0 <= page,
            0 <= limit,
            limit * page <= i64::MAX,
        ensures
            s.sql@ == WARNING_SELECT_SQL@ + spec_filter_where(args) + spec_filter_tail(args),
            s@.binds =~= spec_filter_binds(args, limit as int, limit * page),
    {
        let offset = crate::pagination::page_offset(limit, page);
        let mut sql = String::from_str(WARNING_SELECT_SQL);
        let mut binds: Vec<Bind> = Vec::new();

        match args.model_id {
            Some(id) => {
                sql.append(" WHERE model_id = $1");
                binds.push(Bind::Id(id));
            },
            None => match args.resolved_by {
                Some(id) => {
                    sql.append(" WHERE warnings.resolved_by = $1");
                    binds.push(Bind::Id(id));
                },
                None => {
                    sql.append(" WHERE warnings.resolved_by IS NULL");
                },
            },
        }

        match args.user_id {
            Some(id) => {
                binds.push(Bind::Id(id));
                if args.model_id.is_some() || args.resolved_by.is_some() {
                    sql.append(" AND user_id = $2 ORDER BY id DESC LIMIT $3 OFFSET $4");
                } else {
                    sql.append(" AND user_id = $1 ORDER BY id DESC LIMIT $2 OFFSET $3");
                }
            },
            None => {
                if args.model_id.is_some() || args.resolved_by.is_some() {
                    sql.append(" ORDER BY id DESC LIMIT $2 OFFSET $3");
                } else {
                    sql.append(" ORDER BY id DESC LIMIT $1 OFFSET $2");
                }
            },
        }

        binds.push(Bind::Count(limit));
        binds.push(Bind::Count(offset));
        Statement { sql, binds }
    }

    /// Return the count of the warnings a filter matches, constrained
    /// exactly as the filter's rows statement is.
    pub fn count_by_model_id(args: WarningFilter) -> (s: Statement)
        ensures
            s.sql@ == WARNING_COUNT_SQL@ + spec_filter_where(args) + (if args.user_id is Some {
                if args.model_id is Some || args.resolved_by is Some {
                    " AND user_id = $2"@
                } else {
                    " AND user_id = $1"@
                }
            } else {
                Seq::<char>::empty()
            }),
            s@.binds =~= spec_count_binds(args),
    {
        let mut sql = String::from_str(WARNING_COUNT_SQL);
        let mut binds: Vec<Bind> = Vec::new();

        match args.model_id {
            Some(id) => {
                sql.append(" WHERE model_id = $1");
                binds.push(Bind::Id(id));
            },
            None => match args.resolved_by {
                Some(id) => {
                    sql.append(" WHERE warnings.resolved_by = $1");
                    binds.push(Bind::Id(id));
                },
                None => {
                    sql.append(" WHERE warnings.resolved_by IS NULL");
                },
            },
        }

        match args.user_id {
            Some(id) => {
                binds.push(Bind::Id(id));
                if args.model_id.is_some() || args.resolved_by.is_some() {
                    sql.append(" AND user_id = $2");
                } else {
                    sql.append(" AND user_id = $1");
                }
            },
            None => {},
        }

        Statement { sql, binds }
    }

    /// Edit a warning: the record takes the new resolution and the
    /// update statement to run is returned, stamped with the current
    /// time. When `resolver` is None, it means a warning is no more
    /// resolved.
    pub fn edit(&mut self, resolver: Option<i32>, payload: WarningEdit) -> (s: Statement)
        ensures
            final(self).id == old(self).id,
            final(self).user_id == old(self).user_id,
            final(self).model_id == old(self).model_id,
            final(self).resolved_by == resolver,
            final(self).note == old(self).note,
            final(self).admin_note@ == payload.admin_note@,
            final(self).created == old(self).created,
            s.sql@ == WARNING_EDIT_SQL@,
            s@.binds =~= seq![
                BindV::Text(payload.admin_note@),
                BindV::OptId(opt_id_view(resolver)),
                BindV::Timestamp(final(self).updated as int),
                BindV::Id(old(self).id as int),
            ],
    {
        let now = crate::clock::now_timestamp();
        let mut binds: Vec<Bind> = Vec::new();
        binds.push(Bind::Text(payload.admin_note.clone()));
        binds.push(Bind::OptId(resolver));
        binds.push(Bind::Timestamp(now));
        binds.push(Bind::Id(self.id));

        self.admin_note = payload.admin_note;
        self.resolved_by = resolver;
        self.updated = now;

        Statement { sql: String::from_str(WARNING_EDIT_SQL), binds }
    }
}

impl core::convert::From<WarningUser> for Warning {
    /// Conversion from `WarningUser` to `Warning`: the warning's own
    /// columns are kept as they stand.
    fn from(item: WarningUser) -> (w: Warning) {
        Warning {
            id: item.id,
            user_id: item.user_id,
            model_id: item.model_id,
            resolved_by: item.resolved_by,
            note: item.note,
            admin_note: item.admin_note,
            created: item.created,
            updated: item.updated,
        }
    }
}

impl vstd::std_specs::convert::FromSpecImpl<WarningUser> for Warning {
    open spec fn obeys_from_spec() -> bool {
        true
    }

    open spec fn from_spec(item: WarningUser) -> Warning {
        Warning {
            id: item.id,
            user_id: item.user_id,
            model_id: item.model_id,
            resolved_by: item.resolved_by,
            note: item.note,
            admin_note: item.admin_note,
            created: item.created,
            updated: item.updated,
        }
    }
}

} // verus!
