use vstd::prelude::*;

use crate::errors::AppError;
use crate::model::models::{
    Model, ModelCreate, ModelUpload, ModelUser, MODEL_DELETE_SQL, MODEL_EDIT_SQL,
    UPLOAD_DELETE_SQL,
};
use crate::query::{opt_text_view, BindV, Statement};
use crate::user::models::UserList;

verus! {

/// Message for a model lookup that found nothing.
pub const MSG_MODEL_NOT_FOUND: &'static str = "Model not found";

/// Message for an upload lookup that found nothing, or an upload that
/// belongs to another model.
pub const MSG_UPLOAD_NOT_FOUND: &'static str = "Upload not found";

/// The outcome of a model lookup: the aggregate row, or a not-found
/// error.
pub fn model_or_not_found(found: Option<ModelUser>) -> (r: Result<ModelUser, AppError>)
    ensures
        found matches Some(m) ==> r matches Ok(v) && v == m,
        found is None ==> (r matches Err(e) && e matches AppError::NotFound(m) && m@
            == MSG_MODEL_NOT_FOUND@),
{
    match found {
        Some(model) => Ok(model),
        None => Err(AppError::NotFound(String::from_str(MSG_MODEL_NOT_FOUND))),
    }
}

/// Whether an account may change a model: its author, or a staffer.
pub open spec fn spec_can_modify(model: ModelUser, user: UserList) -> bool {
    model.spec_author_id() == user.id as int || user.is_staff == Some(true)
}

/// Only a model's author and staffers may change it.
pub fn authorize_model_action(model: &ModelUser, user: &UserList) -> (r: Result<(), AppError>)
    requires
        user.is_staff is Some,
    ensures
        r is Ok <==> spec_can_modify(*model, *user),
        r matches Err(e) ==> e == AppError::Unauthorized,
{
    if model.author_id() == user.id || user.staff() {
        Ok(())
    } else {
        Err(AppError::Unauthorized)
    }
}

/// Create a model: the record the create endpoint builds from its
/// payload, authored by the requester, stamped with the current time.
pub fn create_model(payload: ModelCreate, claims_user_id: i32) -> (m: Model)
    ensures
        m.id == 0,
        m.name@ == payload.name@,
        m.description == payload.description,
        m.duration@ == payload.duration@,
        m.height@ == payload.height@,
        m.weight@ == payload.weight@,
        m.printer == payload.printer,
        m.material == payload.material,
        m.author_id == claims_user_id,
        m.created == m.updated,
{
    Model::new(
        payload.name,
        payload.description,
        payload.duration,
        payload.height,
        payload.weight,
        payload.printer,
        payload.material,
        claims_user_id,
    )
}

/// The owner or a staffer can delete a model: the delete statement to
/// run.
pub fn delete_model(model: &ModelUser, user: &UserList) -> (r: Result<Statement, AppError>)
    requires
        user.is_staff is Some,
    ensures
        r is Ok <==> spec_can_modify(*model, *user),
        r matches Ok(s) ==> s.sql@ == MODEL_DELETE_SQL@ && s@.binds =~= seq![
            BindV::Id(model.id as int),
        ],
        r matches Err(e) ==> e == AppError::Unauthorized,
{
    match authorize_model_action(model, user) {
        Err(e) => Err(e),
        Ok(()) => Ok(Model::delete(model.id)),
    }
}

/// The owner or a staffer can edit a model: the update statement to
/// run, built from the payload and stamped with the current time, or
/// the authorization or validation error.
pub fn edit_model(
    model: &ModelUser,
    user: &UserList,
    payload: ModelCreate,
    claims_user_id: i32,
) -> (r: Result<Statement, AppError>)
    requires
        user.is_staff is Some,
    ensures
        !spec_can_modify(*model, *user) ==> (r matches Err(e) && e == AppError::Unauthorized),
        spec_can_modify(*model, *user) ==> {
            &&& (r is Ok <==> payload.name@.len() >= 2)
            &&& (r matches Ok(s) ==> s.sql@ == MODEL_EDIT_SQL@ && s@.binds.len() == 9 && s@.binds[0]
                == BindV::Text(payload.name@) && s@.binds[1] == BindV::OptText(
                opt_text_view(payload.description),
            ) && s@.binds[2] == BindV::Decimal(payload.duration@) && s@.binds[3]
                == BindV::Decimal(payload.height@) && s@.binds[4] == BindV::Decimal(
                payload.weight@,
            ) && s@.binds[5] == BindV::OptText(opt_text_view(payload.printer)) && s@.binds[6]
                == BindV::OptText(opt_text_view(payload.material)) && (s@.binds[7] matches
                BindV::Timestamp(_)) && s@.binds[8] == BindV::Id(model.id as int))
            &&& (r matches Err(e) ==> (e matches AppError::BadRequest(m) && m@
                == crate::user::models::MSG_EMPTY@))
        },
{
    match authorize_model_action(model, user) {
        Err(e) => Err(e),
        Ok(()) => {
            let model_body = create_model(payload, claims_user_id);
            Model::edit(model.id, model_body)
        },
    }
}

/// The owner or a staffer can attach a file to a model: the insert
/// statement recording the saved file's public URL, or the
/// authorization error.
pub fn upload_model_file(model: &ModelUser, user: &UserList, saved_file: String) -> (r: Result<
    (ModelUpload, Statement),
    AppError,
>)
    requires
        user.is_staff is Some,
    ensures
        r is Ok <==> spec_can_modify(*model, *user),
        r matches Ok(p) ==> p.0.id == 0 && p.0.filepath@ == saved_file@ && p.0.model_id == model.id
            && p.1.sql@ == crate::model::models::UPLOAD_INSERT_SQL@ && p.1@.binds =~= seq![
            BindV::Text(saved_file@),
            BindV::Id(model.id as int),
            BindV::Timestamp(p.0.created as int),
        ],
        r matches Err(e) ==> e == AppError::Unauthorized,
{
    match authorize_model_action(model, user) {
        Err(e) => Err(e),
        Ok(()) => {
            let upload = ModelUpload::new(saved_file, model.id);
            let record = ModelUpload {
                id: upload.id,
                model_id: upload.model_id,
                filepath: upload.filepath.clone(),
                created: upload.created,
            };
            let statement = ModelUpload::create(upload);
            Ok((record, statement))
        },
    }
}

/// The extensions a model upload may carry.
pub fn model_upload_extensions() -> (r: Vec<String>)
    ensures
        r@.map_values(|s: String| s@) =~= seq![
            "stl"@,
            "obj"@,
            "png"@,
            "jpg"@,
            "jpeg"@,
            "gif"@,
            "webp"@,
            "blend"@,
            "octet-stream"@,
            "sla"@,
        ],
{
    let mut r: Vec<String> = Vec::new();
    r.push(String::from_str("stl"));
    r.push(String::from_str("obj"));
    r.push(String::from_str("png"));
    r.push(String::from_str("jpg"));
    r.push(String::from_str("jpeg"));
    r.push(String::from_str("gif"));
    r.push(String::from_str("webp"));
    r.push(String::from_str("blend"));
    r.push(String::from_str("octet-stream"));
    r.push(String::from_str("sla"));
    r
}

/// The owner or a staffer can delete a model upload; an upload that
/// belongs to another model is not found. The delete statement to run
/// is returned with the upload's stored filepath.
pub fn delete_model_file(model: &ModelUser, user: &UserList, upload: &ModelUpload) -> (r: Result<
    (String, Statement),
    AppError,
>)
    requires
        user.is_staff is Some,
    ensures
        !spec_can_modify(*model, *user) ==> (r matches Err(e) && e == AppError::Unauthorized),
        spec_can_modify(*model, *user) && upload.model_id != model.id ==> (r matches Err(e) && e
            matches AppError::NotFound(m) && m@ == MSG_UPLOAD_NOT_FOUND@),
        spec_can_modify(*model, *user) && upload.model_id == model.id ==> (r matches Ok(p)
            && p.0@ == upload.filepath@ && p.1.sql@ == UPLOAD_DELETE_SQL@ && p.1@.binds =~= seq![
            BindV::Id(upload.id as int),
        ]),
{
    match authorize_model_action(model, user) {
        Err(e) => Err(e),
        Ok(()) => {
            if upload.model_id != model.id {
                return Err(AppError::NotFound(String::from_str(MSG_UPLOAD_NOT_FOUND)));
            }
            let filepath = upload.filepath.clone();
            Ok((filepath, ModelUpload::delete(upload.id)))
        },
    }
}

} // verus!
