use verden::errors::AppError;
use verden::model::models::ModelUser;
use verden::query::Bind;
use verden::user::models::UserList;
use verden::warning::models::{
    Warning, WarningEdit, WarningFilter, WarningFilterPayload, WarningUser, WARNING_COUNT_SQL,
    WARNING_DELETE_SQL, WARNING_EDIT_SQL, WARNING_INSERT_SQL, WARNING_SELECT_SQL,
};
use verden::warning::routes::{
    create_warning, delete_warning, delete_warning_status, edit_warning, filter_args, get_warning,
    list_warnings, require_staff,
};

fn list_user(id: i32, staff: bool) -> UserList {
    UserList {
        id,
        name: "Jane".to_string(),
        email: "jane@example.com".to_string(),
        username: "jane".to_string(),
        is_staff: Some(staff),
        avatar: None,
    }
}

fn a_model(id: i32) -> ModelUser {
    ModelUser {
        id,
        name: "Benchy".to_string(),
        description: None,
        duration: "1".to_string(),
        height: "1".to_string(),
        weight: "1".to_string(),
        printer: None,
        material: None,
        author_id: 4,
        created: 0,
        updated: 0,
        author: None,
        uploads: None,
        likes: None,
    }
}

fn a_row(id: i32) -> WarningUser {
    WarningUser {
        id,
        user_id: Some(2),
        model_id: Some(77),
        resolved_by: None,
        note: "stolen model".to_string(),
        admin_note: String::new(),
        created: 1111,
        updated: 2222,
        user: None,
        resolved: None,
    }
}

#[test]
fn new_warning_links_reporter_and_model() {
    let w = Warning::new(2, 77, "stolen model".to_string());
    assert_eq!(w.id, 0);
    assert_eq!(w.user_id, Some(2));
    assert_eq!(w.model_id, Some(77));
    assert_eq!(w.resolved_by, None);
    assert_eq!(w.note, "stolen model");
    assert_eq!(w.admin_note, "");
    assert_eq!(w.created, w.updated);
}

#[test]
fn warning_list_scopes_to_the_reporter() {
    let s = Warning::list(1, 10, Some(2));
    assert_eq!(
        s.sql,
        format!("{} WHERE user_id = $1 ORDER BY id DESC LIMIT $2 OFFSET $3", WARNING_SELECT_SQL)
    );
    assert_eq!(s.binds, vec![Bind::Id(2), Bind::Count(10), Bind::Count(10)]);

    let s = Warning::list(1, 10, None);
    assert_eq!(s.sql, format!("{} ORDER BY id DESC LIMIT $1 OFFSET $2", WARNING_SELECT_SQL));
    assert_eq!(s.binds, vec![Bind::Count(10), Bind::Count(10)]);
}

#[test]
fn warning_count_scopes_to_the_reporter() {
    let s = Warning::count(Some(2));
    assert_eq!(s.sql, format!("{} WHERE user_id = $1", WARNING_COUNT_SQL));
    assert_eq!(s.binds, vec![Bind::Id(2)]);
    let s = Warning::count(None);
    assert_eq!(s.sql, WARNING_COUNT_SQL);
    assert!(s.binds.is_empty());
}

#[test]
fn warning_insert_binds_every_column() {
    let w = Warning::new(2, 77, "stolen model".to_string());
    let created = w.created;
    let s = Warning::create(w);
    assert_eq!(s.sql, WARNING_INSERT_SQL);
    assert_eq!(
        s.binds,
        vec![
            Bind::OptId(Some(2)),
            Bind::OptId(Some(77)),
            Bind::OptId(None),
            Bind::Text("stolen model".to_string()),
            Bind::Text(String::new()),
            Bind::Timestamp(created),
            Bind::Timestamp(created),
        ]
    );
}

#[test]
fn filter_by_model_restricted_to_reporter() {
    let args = WarningFilter { model_id: Some(77), resolved_by: None, user_id: Some(2) };
    let s = Warning::filter(0, 10, args);
    assert_eq!(
        s.sql,
        format!(
            "{} WHERE model_id = $1 AND user_id = $2 ORDER BY id DESC LIMIT $3 OFFSET $4",
            WARNING_SELECT_SQL
        )
    );
    assert_eq!(
        s.binds,
        vec![Bind::Id(77), Bind::Id(2), Bind::Count(10), Bind::Count(0)]
    );
}

#[test]
fn filter_by_resolver_for_staff() {
    let args = WarningFilter { model_id: None, resolved_by: Some(6), user_id: None };
    let s = Warning::filter(0, 10, args);
    assert_eq!(
        s.sql,
        format!(
            "{} WHERE warnings.resolved_by = $1 ORDER BY id DESC LIMIT $2 OFFSET $3",
            WARNING_SELECT_SQL
        )
    );
    assert_eq!(s.binds, vec![Bind::Id(6), Bind::Count(10), Bind::Count(0)]);
}

#[test]
fn filter_of_unresolved_warnings() {
    let args = WarningFilter { model_id: None, resolved_by: None, user_id: None };
    let s = Warning::filter(2, 10, args);
    assert_eq!(
        s.sql,
        format!(
            "{} WHERE warnings.resolved_by IS NULL ORDER BY id DESC LIMIT $1 OFFSET $2",
            WARNING_SELECT_SQL
        )
    );
    assert_eq!(s.binds, vec![Bind::Count(10), Bind::Count(20)]);
}

#[test]
fn filter_of_unresolved_warnings_by_reporter() {
    let args = WarningFilter { model_id: None, resolved_by: None, user_id: Some(2) };
    let s = Warning::filter(0, 10, args);
    assert_eq!(
        s.sql,
        format!(
            "{} WHERE warnings.resolved_by IS NULL AND user_id = $1 ORDER BY id DESC LIMIT $2 OFFSET $3",
            WARNING_SELECT_SQL
        )
    );
    assert_eq!(s.binds, vec![Bind::Id(2), Bind::Count(10), Bind::Count(0)]);
}

#[test]
fn count_constrains_like_the_filter() {
    let args = WarningFilter { model_id: Some(77), resolved_by: None, user_id: Some(2) };
    let rows = Warning::filter(0, 10, args);
    let count = Warning::count_by_model_id(args);
    assert_eq!(count.sql, format!("{} WHERE model_id = $1 AND user_id = $2", WARNING_COUNT_SQL));
    // The rows statement binds the count's values, then the page window.
    let mut expected = count.binds;
    expected.push(Bind::Count(10));
    expected.push(Bind::Count(0));
    assert_eq!(rows.binds, expected);
}

#[test]
fn count_of_unresolved_warnings() {
    let args = WarningFilter { model_id: None, resolved_by: None, user_id: None };
    let s = Warning::count_by_model_id(args);
    assert_eq!(s.sql, format!("{} WHERE warnings.resolved_by IS NULL", WARNING_COUNT_SQL));
    assert!(s.binds.is_empty());
}

#[test]
fn staff_gate_rejects_plain_users() {
    assert!(require_staff(&list_user(1, true)).is_ok());
    assert_eq!(require_staff(&list_user(1, false)).unwrap_err(), AppError::Unauthorized);
}

#[test]
fn list_warnings_for_staff_sees_everything() {
    let (rows, count) = list_warnings(&list_user(1, true), 0, 10);
    assert_eq!(rows.sql, format!("{} ORDER BY id DESC LIMIT $1 OFFSET $2", WARNING_SELECT_SQL));
    assert_eq!(count.sql, WARNING_COUNT_SQL);

    let (rows, count) = list_warnings(&list_user(2, false), 0, 10);
    assert_eq!(
        rows.sql,
        format!("{} WHERE user_id = $1 ORDER BY id DESC LIMIT $2 OFFSET $3", WARNING_SELECT_SQL)
    );
    assert_eq!(rows.binds[0], Bind::Id(2));
    assert_eq!(count.binds, vec![Bind::Id(2)]);
}

#[test]
fn get_warning_converts_the_row() {
    let w = get_warning(&list_user(1, true), Some(a_row(5))).expect("staff may read");
    assert_eq!(w.id, 5);
    assert_eq!(w.note, "stolen model");
    assert_eq!(w.created, 1111);
    assert_eq!(w.updated, 2222);

    let r = get_warning(&list_user(2, false), Some(a_row(5)));
    assert_eq!(r.unwrap_err(), AppError::Unauthorized);
    let r = get_warning(&list_user(1, true), None);
    assert_eq!(r.unwrap_err(), AppError::NotFound("Warning not found".to_string()));
}

#[test]
fn create_warning_needs_an_existing_model() {
    let r = create_warning(None, 2, "stolen model".to_string());
    assert_eq!(r.unwrap_err(), AppError::NotFound("Report not found".to_string()));

    let (w, s) = create_warning(Some(a_model(77)), 2, "stolen model".to_string()).expect("model found");
    assert_eq!(w.user_id, Some(2));
    assert_eq!(w.model_id, Some(77));
    assert_eq!(s.sql, WARNING_INSERT_SQL);
    assert_eq!(s.binds[0], Bind::OptId(Some(2)));
    assert_eq!(s.binds[1], Bind::OptId(Some(77)));
}

#[test]
fn edit_warning_records_the_acting_staffer() {
    let mut w = Warning::new(2, 77, "stolen model".to_string());
    let payload = WarningEdit { admin_note: "checked".to_string(), resolved_by: None };
    let s = edit_warning(&mut w, &list_user(6, true), payload).expect("staff may edit");
    assert_eq!(w.resolved_by, Some(6));
    assert_eq!(w.admin_note, "checked");
    assert_eq!(s.sql, WARNING_EDIT_SQL);
    assert_eq!(s.binds[0], Bind::Text("checked".to_string()));
    assert_eq!(s.binds[1], Bind::OptId(Some(6)));
}

#[test]
fn edit_warning_clears_resolution_on_non_positive_resolver() {
    let mut w = Warning::new(2, 77, "stolen model".to_string());
    let payload = WarningEdit { admin_note: "reopened".to_string(), resolved_by: Some(0) };
    edit_warning(&mut w, &list_user(6, true), payload).expect("staff may edit");
    assert_eq!(w.resolved_by, None);

    let payload = WarningEdit { admin_note: "kept".to_string(), resolved_by: Some(9) };
    edit_warning(&mut w, &list_user(6, true), payload).expect("staff may edit");
    assert_eq!(w.resolved_by, Some(6));
}

#[test]
fn edit_warning_rejects_plain_users() {
    let mut w = Warning::new(2, 77, "stolen model".to_string());
    let payload = WarningEdit { admin_note: "checked".to_string(), resolved_by: None };
    let r = edit_warning(&mut w, &list_user(2, false), payload);
    assert_eq!(r.unwrap_err(), AppError::Unauthorized);
    assert_eq!(w.resolved_by, None);
    assert_eq!(w.admin_note, "");
}

#[test]
fn delete_warning_is_for_staff_only() {
    let s = delete_warning(&list_user(6, true), 5).expect("staff may delete");
    assert_eq!(s.sql, WARNING_DELETE_SQL);
    assert_eq!(s.binds, vec![Bind::Id(5)]);
    let r = delete_warning(&list_user(2, false), 5);
    assert_eq!(r.unwrap_err(), AppError::Unauthorized);
    assert_eq!(delete_warning_status(true), 204);
    assert_eq!(delete_warning_status(false), 400);
}

#[test]
fn filter_args_scope_plain_users_to_their_reports() {
    let payload = WarningFilterPayload { model_id: Some(77), resolved_by: None };
    let args = filter_args(payload, &list_user(1, true));
    assert_eq!(args, WarningFilter { model_id: Some(77), resolved_by: None, user_id: None });
    let args = filter_args(payload, &list_user(2, false));
    assert_eq!(args, WarningFilter { model_id: Some(77), resolved_by: None, user_id: Some(2) });
}
