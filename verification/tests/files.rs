use verden::errors::AppError;
use verden::files::{
    check_extension, choose_filename, extension_allowed, extension_from, image_content_type,
    joined_path, upload_disk_path,
};
use verden::model::routes::model_upload_extensions;
use verden::user::routes::{avatar_extensions, avatar_filename};

#[test]
fn extension_follows_the_first_separator() {
    assert_eq!(extension_from("image/png", '/'), "png");
    assert_eq!(extension_from("model.stl", '.'), "stl");
    assert_eq!(extension_from("a.b.c", '.'), "b.c");
}

#[test]
fn missing_separator_falls_back() {
    assert_eq!(extension_from("imagepng", '/'), "xxx");
    assert_eq!(extension_from("", '/'), "xxx");
}

#[test]
fn allowlist_is_matched_lower_cased() {
    let allowed = vec!["JPG".to_string(), "Png".to_string()];
    assert!(extension_allowed("jpg", &allowed));
    assert!(extension_allowed("png", &allowed));
    assert!(!extension_allowed("JPG", &allowed));
    assert!(!extension_allowed("gif", &allowed));
}

#[test]
fn upload_accepts_an_allowed_extension() {
    let ext = check_extension("model/stl", &model_upload_extensions()).expect("stl is allowed");
    assert_eq!(ext, "stl");
    let ext = check_extension("application/octet-stream", &model_upload_extensions())
        .expect("octet-stream is allowed");
    assert_eq!(ext, "octet-stream");
}

#[test]
fn upload_rejects_a_disallowed_extension() {
    let r = check_extension("application/pdf", &model_upload_extensions());
    assert_eq!(
        r.unwrap_err(),
        AppError::BadRequest("File extension not supported".to_string())
    );
    let r = check_extension("noslash", &avatar_extensions());
    assert_eq!(
        r.unwrap_err(),
        AppError::BadRequest("File extension not supported".to_string())
    );
}

#[test]
fn avatar_allowlist_is_images_only() {
    let exts = avatar_extensions();
    assert_eq!(
        exts,
        vec!["jpg".to_string(), "jpeg".to_string(), "png".to_string(), "webp".to_string()]
    );
    assert!(check_extension("image/gif", &exts).is_err());
}

#[test]
fn chosen_filename_prefers_the_callers_name() {
    assert_eq!(choose_filename(Some("avatar-5".to_string())), "avatar-5");
}

#[test]
fn random_filename_is_a_decimal_name() {
    let n = choose_filename(None);
    assert!(!n.is_empty());
    assert!(n.chars().all(|c| c.is_ascii_digit()));
}

#[test]
fn joined_path_builds_disk_path_and_url() {
    assert_eq!(joined_path("/var/uploads", "534211", "stl"), "/var/uploads/534211.stl");
    assert_eq!(joined_path("/uploads", "avatar-5", "png"), "/uploads/avatar-5.png");
}

#[test]
fn disk_path_takes_the_name_after_the_last_slash() {
    assert_eq!(upload_disk_path("/var/uploads", "/uploads/534211.stl"), "/var/uploads/534211.stl");
    assert_eq!(upload_disk_path("/var/uploads", "a/b/c.png"), "/var/uploads/c.png");
}

#[test]
fn uploads_are_served_with_an_image_content_type() {
    assert_eq!(image_content_type("pic.png"), Some("image/png".to_string()));
    assert_eq!(image_content_type("pic.webp"), Some("image/webp".to_string()));
    assert_eq!(image_content_type("model.stl"), None);
    assert_eq!(image_content_type("noext"), None);
}

#[test]
fn avatar_filename_carries_the_account_id() {
    assert_eq!(avatar_filename(5), "avatar-5");
    assert_eq!(avatar_filename(0), "avatar-0");
}
