use verden::errors::AppError;
use verden::likes::models::{Like, LIKE_DELETE_SQL, LIKE_EXISTS_SQL, LIKE_INSERT_SQL};
use verden::query::Bind;

#[test]
fn new_like_links_user_and_model() {
    let l = Like::new(2, 77);
    assert_eq!(l.id, 0);
    assert_eq!(l.user_id, 2);
    assert_eq!(l.model_id, 77);
}

#[test]
fn exists_query_binds_the_pair() {
    let s = Like::new(2, 77).exists_query();
    assert_eq!(s.sql, LIKE_EXISTS_SQL);
    assert_eq!(s.binds, vec![Bind::Id(2), Bind::Id(77)]);
}

#[test]
fn saving_twice_is_a_bad_request() {
    let r = Like::new(2, 77).save(true);
    assert_eq!(
        r.unwrap_err(),
        AppError::BadRequest("This user already likes this model".to_string())
    );
}

#[test]
fn saving_a_fresh_like_builds_the_insert() {
    let l = Like::new(2, 77);
    let created = l.created;
    let s = l.save(false).expect("not liked yet");
    assert_eq!(s.sql, LIKE_INSERT_SQL);
    assert_eq!(s.binds, vec![Bind::Id(2), Bind::Id(77), Bind::Timestamp(created)]);
}

#[test]
fn removing_an_absent_like_is_not_found() {
    let r = Like::new(2, 77).remove(false);
    assert_eq!(r.unwrap_err(), AppError::NotFound("Like not found".to_string()));
}

#[test]
fn removing_an_existing_like_builds_the_delete() {
    let s = Like::new(2, 77).remove(true).expect("liked");
    assert_eq!(s.sql, LIKE_DELETE_SQL);
    assert_eq!(s.binds, vec![Bind::Id(2), Bind::Id(77)]);
}
