use vstd::prelude::*;

use crate::errors::AppError;
use crate::model::models::ModelUser;
use crate::query::{opt_id_view, BindV, Statement};
use crate::user::models::UserList;
use crate::warning::models::{
    Warning, WarningEdit, WarningFilter, WarningFilterPayload, WarningUser, WARNING_COUNT_SQL,
    WARNING_DELETE_SQL, WARNING_EDIT_SQL, WARNING_INSERT_SQL, WARNING_SELECT_SQL,
};

verus! {

/// Message for a warning created against a model that was not found.
pub const MSG_REPORT_NOT_FOUND: &'static str = "Report not found";

/// Message for a warning lookup that found nothing.
pub const MSG_WARNING_NOT_FOUND: &'static str = "Warning not found";

/// Only staffers pass the moderation gate.
pub fn require_staff(user: &UserList) -> (r: Result<(), AppError>)
    requires
        user.is_staff is Some,
    ensures
        r is Ok <==> user.is_staff == Some(true),
        r matches Err(e) ==> e == AppError::Unauthorized,
{
    if user.staff() {
        Ok(())
    } else {
        Err(AppError::Unauthorized)
    }
}

/// List warnings. A staffer can see everything; another user only the
/// warnings they reported. The rows statement and the count statement
/// to run are returned.
pub fn list_warnings(user: &UserList, page: i64, limit: i64) -> (r: (Statement, Statement))
    requires
        user.is_staff is Some,
        0 <= page,
        0 <= limit,
        limit * page <= i64::MAX,
    ensures
        user.is_staff == Some(true) ==> {
            &&& r.0.sql@ == WARNING_SELECT_SQL@ + " ORDER BY id DESC LIMIT $1 OFFSET $2"@
            &&& r.0@.binds =~= seq![BindV::Count(limit as int), BindV::Count(limit * page)]
            &&& r.1.sql@ == WARNING_COUNT_SQL@
            &&& r.1@.binds =~= Seq::<BindV>::empty()
        },
        user.is_staff != Some(true) ==> {
            &&& r.0.sql@ == WARNING_SELECT_SQL@
                + " WHERE user_id = $1 ORDER BY id DESC LIMIT $2 OFFSET $3"@
            &&& r.0@.binds =~= seq![
                BindV::Id(user.id as int),
                BindV::Count(limit as int),
                BindV::Count(limit * page),
            ]
            &&& r.1.sql@ == WARNING_COUNT_SQL@ + " WHERE user_id = $1"@
            &&& r.1@.binds =~= seq![BindV::Id(user.id as int)]
        },
{
    if user.staff() {
        (Warning::list(page, limit, None), Warning::count(None))
    } else {
        (Warning::list(page, limit, Some(user.id)), Warning::count(Some(user.id)))
    }
}

/// Get a warning: staffers only; an absent warning is not found. The
/// row is converted to its bare warning, every column kept.
pub fn get_warning(user: &UserList, found: Option<WarningUser>) -> (r: Result<Warning, AppError>)
    requires
        user.is_staff is Some,
    ensures
        user.is_staff != Some(true) ==> (r matches Err(e) && e == AppError::Unauthorized),
        user.is_staff == Some(true) && found is None ==> (r matches Err(e) && e
            matches AppError::NotFound(m) && m@ == MSG_WARNING_NOT_FOUND@),
        user.is_staff == Some(true) && (found matches Some(row)) ==> (r matches Ok(w) && (
        found matches Some(row) ==> w.id == row.id && w.user_id == row.user_id && w.model_id
            == row.model_id && w.resolved_by == row.resolved_by && w.note == row.note
            && w.admin_note == row.admin_note && w.created == row.created && w.updated
            == row.updated)),
{
    match require_staff(user) {
        Err(e) => Err(e),
        Ok(()) => match found {
            None => Err(AppError::NotFound(String::from_str(MSG_WARNING_NOT_FOUND))),
            Some(row) => Ok(Warning::from(row)),
        },
    }
}

/// Create a warning: the report the endpoint builds once the suspect
/// model's lookup has come back, and the insert statement to run. A
/// missing model is not found.
pub fn create_warning(found_model: Option<ModelUser>, claims_user_id: i32, note: String) -> (r:
    Result<(Warning, Statement), AppError>)
    ensures
        found_model is None ==> (r matches Err(e) && e matches AppError::NotFound(m) && m@
            == MSG_REPORT_NOT_FOUND@),
        found_model matches Some(model) ==> (r matches Ok(p) && p.0.id == 0 && p.0.user_id == Some(
            claims_user_id,
        ) && p.0.model_id == Some(model.id) && p.0.resolved_by is None && p.0.note@ == note@
            && p.0.admin_note@ == Seq::<char>::empty() && p.1.sql@ == WARNING_INSERT_SQL@
            && p.1@.binds =~= seq![
            BindV::OptId(Some(claims_user_id as int)),
            BindV::OptId(Some(model.id as int)),
            BindV::OptId(None),
            BindV::Text(note@),
            BindV::Text(Seq::<char>::empty()),
            BindV::Timestamp(p.0.created as int),
            BindV::Timestamp(p.0.updated as int),
        ]),
{
    match found_model {
        None => Err(AppError::NotFound(String::from_str(MSG_REPORT_NOT_FOUND))),
        Some(model) => {
            let warning = Warning::new(claims_user_id, model.id, note);
            let record = Warning {
                id: warning.id,
                user_id: warning.user_id,
                model_id: warning.model_id,
                resolved_by: warning.resolved_by,
                note: warning.note.clone(),
                admin_note: warning.admin_note.clone(),
                created: warning.created,
                updated: warning.updated,
            };
            let statement = Warning::create(warning);
            Ok((record, statement))
        },
    }
}

/// The resolver an edit records: the acting staffer, unless the payload
/// carries a non-positive resolver id, which clears the resolution.
pub open spec fn spec_resolver(payload: WarningEdit, staff_id: i32) -> Option<i32> {
    match payload.resolved_by {
        None => Some(staff_id),
        Some(v) => if v > 0 {
            Some(staff_id)
        } else {
            None
        },
    }
}

/// Staffers can edit a warning: the record takes the payload's note and
/// the chosen resolver, and the update statement to run is returned.
pub fn edit_warning(warning: &mut Warning, user: &UserList, payload: WarningEdit) -> (r: Result<
    Statement,
    AppError,
>)
    requires
        user.is_staff is Some,
    ensures
        user.is_staff != Some(true) ==> (r matches Err(e) && e == AppError::Unauthorized
            && *final(warning) == *old(warning)),
        user.is_staff == Some(true) ==> {
            &&& final(warning).id == old(warning).id
            &&& final(warning).user_id == old(warning).user_id
            &&& final(warning).model_id == old(warning).model_id
            &&& final(warning).resolved_by == spec_resolver(payload, user.id)
            &&& final(warning).note == old(warning).note
            &&& final(warning).admin_note@ == payload.admin_note@
            &&& final(warning).created == old(warning).created
            &&& (r matches Ok(s) && s.sql@ == WARNING_EDIT_SQL@ && s@.binds =~= seq![
                BindV::Text(payload.admin_note@),
                BindV::OptId(opt_id_view(spec_resolver(payload, user.id))),
                BindV::Timestamp(final(warning).updated as int),
                BindV::Id(old(warning).id as int),
            ])
        },
{
    match require_staff(user) {
        Err(e) => Err(e),
        Ok(()) => {
            let keep_resolved = match payload.resolved_by {
                None => true,
                Some(v) => v > 0,
            };
            let resolver = if keep_resolved {
                Some(user.id)
            } else {
                None
            };
            Ok(warning.edit(resolver, payload))
        },
    }
}

/// A staffer can delete a warning: the delete statement to run.
pub fn delete_warning(user: &UserList, warning_id: i32) -> (r: Result<Statement, AppError>)
    requires
        user.is_staff is Some,
    ensures
        r is Ok <==> user.is_staff == Some(true),
        r matches Ok(s) ==> s.sql@ == WARNING_DELETE_SQL@ && s@.binds =~= seq![
            BindV::Id(warning_id as int),
        ],
        r matches Err(e) ==> e == AppError::Unauthorized,
{
    match require_staff(user) {
        Err(e) => Err(e),
        Ok(()) => Ok(Warning::delete(warning_id)),
    }
}

/// The status a warning deletion answers with: no-content when the
/// delete went through, bad-request otherwise.
pub fn delete_warning_status(deleted: bool) -> (code: u16)
    ensures
        deleted ==> code == 204,
        !deleted ==> code == 400,
{
    if deleted {
        204
    } else {
        400
    }
}

/// The filter each class of requester gets: a staffer searches every
/// warning, another user only the warnings they reported.
pub fn filter_args(payload: WarningFilterPayload, user: &UserList) -> (args: WarningFilter)
    requires
        user.is_staff is Some,
    ensures
        args.model_id == payload.model_id,
        args.resolved_by == payload.resolved_by,
        args.user_id == (if user.is_staff == Some(true) {
            None::<i32>
        } else {
            Some(user.id)
        }),
{
    if user.staff() {
        WarningFilter { model_id: payload.model_id, resolved_by: payload.resolved_by, user_id: None }
    } else {
        WarningFilter {
            model_id: payload.model_id,
            resolved_by: payload.resolved_by,
            user_id: Some(user.id),
        }
    }
}

} // verus!
