use verden::config::Configuration;
use verden::pagination::{page_offset, Pagination};
use verden::text::{ascii_lowercase, i32_decimal, u32_decimal};

#[test]
fn configuration_keeps_its_settings() {
    let c = Configuration::new(
        20,
        "/var/uploads".to_string(),
        "/uploads".to_string(),
        "debug".to_string(),
        "postgres://localhost/verden".to_string(),
        "SECRET-REDACTED".to_string(),
        "0.0.0.0:8080".to_string(),
    );
    assert_eq!(c.page_limit, 20);
    assert_eq!(c.save_file_base_path, "/var/uploads");
    assert_eq!(c.uploads_endpoint, "/uploads");
    assert_eq!(c.allowed_host, "0.0.0.0:8080");
}

#[test]
fn page_defaults_to_the_first() {
    assert_eq!(Pagination { page: None }.page_or_default(), 0);
    assert_eq!(Pagination { page: Some(4) }.page_or_default(), 4);
}

#[test]
fn offset_is_limit_times_page() {
    assert_eq!(page_offset(20, 0), 0);
    assert_eq!(page_offset(20, 3), 60);
    assert_eq!(page_offset(0, 100), 0);
}

#[test]
fn decimal_renderings() {
    assert_eq!(u32_decimal(0), "0");
    assert_eq!(u32_decimal(7), "7");
    assert_eq!(u32_decimal(1234567890), "1234567890");
    assert_eq!(u32_decimal(u32::MAX), "4294967295");
    assert_eq!(i32_decimal(-45), "-45");
    assert_eq!(i32_decimal(i32::MIN), "-2147483648");
    assert_eq!(i32_decimal(i32::MAX), "2147483647");
}

#[test]
fn ascii_lowercase_moves_only_letters() {
    assert_eq!(ascii_lowercase("AbC-Z9"), "abc-z9");
    assert_eq!(ascii_lowercase("STL"), "stl");
    assert_eq!(ascii_lowercase(""), "");
}
