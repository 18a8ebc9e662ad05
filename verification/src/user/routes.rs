use vstd::prelude::*;

use crate::errors::AppError;
use crate::query::{BindV, Statement};
use crate::text::spec_decimal_signed;
use crate::user::models::{
    UserEdit, UserList, MSG_EMAIL_EXISTS, MSG_EMPTY, MSG_USERNAME_EXISTS, MSG_USER_NOT_FOUND,
    USER_EDIT_SQL,
};

verus! {

/// The outcome of a user lookup: the user, or a not-found error.
pub fn user_or_not_found(found: Option<UserList>) -> (r: Result<UserList, AppError>)
    ensures
        found matches Some(u) ==> r matches Ok(v) && v == u,
        found is None ==> (r matches Err(e) && e matches AppError::NotFound(m) && m@
            == MSG_USER_NOT_FOUND@),
{
    match found {
        Some(user) => Ok(user),
        None => Err(AppError::NotFound(String::from_str(MSG_USER_NOT_FOUND))),
    }
}

/// Whether the claimed account may act on the target account: its
/// owner, or a staffer.
pub open spec fn spec_can_edit_account(target_id: i32, claimed: UserList) -> bool {
    claimed.id == target_id || claimed.is_staff == Some(true)
}

/// Only the owner of an account and staffers may edit it.
pub fn can_edit_account(target_id: i32, claimed: &UserList) -> (r: Result<(), AppError>)
    requires
        claimed.is_staff is Some,
    ensures
        r is Ok <==> spec_can_edit_account(target_id, *claimed),
        r matches Err(e) ==> e == AppError::Unauthorized,
{
    if claimed.id == target_id || claimed.staff() {
        Ok(())
    } else {
        Err(AppError::Unauthorized)
    }
}

/// Whether the payload moves the account to an email another account
/// already holds.
pub open spec fn spec_email_clash(user: UserList, payload: UserEdit, email_taken: bool) -> bool {
    user.email@ != payload.email@ && email_taken
}

/// Whether the payload moves the account to a username another account
/// already holds.
pub open spec fn spec_username_clash(
    user: UserList,
    payload: UserEdit,
    username_taken: bool,
) -> bool {
    user.username@ != payload.username@ && username_taken
}

/// Edit an user with id = `user_id`. Only staffers and the owner of
/// that account can perform this action. The caller hands in the
/// target, the claimed account, and whether the payload's email and
/// username are taken by other accounts; the record takes the payload
/// and the update statement to run is returned.
pub fn edit_user(
    user: &mut UserList,
    payload: UserEdit,
    claimed: &UserList,
    email_taken: bool,
    username_taken: bool,
) -> (r: Result<Statement, AppError>)
    requires
        claimed.is_staff is Some,
    ensures
        !spec_can_edit_account(old(user).id, *claimed) ==> (r matches Err(e) && e
            == AppError::Unauthorized && *final(user) == *old(user)),
        spec_can_edit_account(old(user).id, *claimed) && spec_email_clash(
            *old(user),
            payload,
            email_taken,
        ) ==> (r matches Err(e) && e matches AppError::BadRequest(m) && m@ == MSG_EMAIL_EXISTS@
            && *final(user) == *old(user)),
        spec_can_edit_account(old(user).id, *claimed) && !spec_email_clash(
            *old(user),
            payload,
            email_taken,
        ) && spec_username_clash(*old(user), payload, username_taken) ==> (r matches Err(e) && e
            matches AppError::BadRequest(m) && m@ == MSG_USERNAME_EXISTS@ && *final(user) == *old(
            user,
        )),
        spec_can_edit_account(old(user).id, *claimed) && !spec_email_clash(
            *old(user),
            payload,
            email_taken,
        ) && !spec_username_clash(*old(user), payload, username_taken) ==> {
            &&& final(user).id == old(user).id
            &&& final(user).name@ == payload.name@
            &&& final(user).username@ == payload.username@
            &&& final(user).email@ == payload.email@
            &&& final(user).is_staff == old(user).is_staff
            &&& final(user).avatar == old(user).avatar
            &&& (r is Ok <==> final(user).spec_valid())
            &&& (r matches Ok(s) ==> s.sql@ == USER_EDIT_SQL@ && s@.binds =~= seq![
                BindV::Text(payload.name@),
                BindV::Text(payload.username@),
                BindV::Text(payload.email@),
                BindV::Id(old(user).id as int),
            ])
            &&& (r matches Err(e) ==> (e matches AppError::BadRequest(m) && m@ == MSG_EMPTY@))
        },
{
    match can_edit_account(user.id, claimed) {
        Err(e) => Err(e),
        Ok(()) => {
            let email_clash = !(user.email == payload.email) && email_taken;
            if email_clash {
                return Err(AppError::BadRequest(String::from_str(MSG_EMAIL_EXISTS)));
            }
            let username_clash = !(user.username == payload.username) && username_taken;
            if username_clash {
                return Err(AppError::BadRequest(String::from_str(MSG_USERNAME_EXISTS)));
            }
            user.edit(payload)
        },
    }
}

/// The file name an avatar is stored under: `avatar-` followed by the
/// account id.
pub fn avatar_filename(user_id: i32) -> (n: String)
    ensures
        n@ == "avatar-"@ + spec_decimal_signed(user_id as int),
{
    let mut n = String::from_str("avatar-");
    n.append(crate::text::i32_decimal(user_id).as_str());
    n
}

/// The extensions an avatar upload may carry.
pub fn avatar_extensions() -> (r: Vec<String>)
    ensures
        r@.map_values(|s: String| s@) =~= seq!["jpg"@, "jpeg"@, "png"@, "webp"@],
{
    let mut r: Vec<String> = Vec::new();
    r.push(String::from_str("jpg"));
    r.push(String::from_str("jpeg"));
    r.push(String::from_str("png"));
    r.push(String::from_str("webp"));
    r
}

} // verus!
