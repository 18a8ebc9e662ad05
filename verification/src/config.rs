use vstd::prelude::*;

verus! {

/// The settings the service runs with. The binary reads them from the
/// environment and hands them over as plain values.
#[derive(Debug)]
pub struct Configuration {
    pub page_limit: i64,
    pub save_file_base_path: String,
    pub uploads_endpoint: String,
    pub rust_log: String,
    pub database_url: String,
    pub jwt_secret: String,
    pub allowed_host: String,
}

impl Configuration {
    /// Build a configuration from its settings.
    pub fn new(
        page_limit: i64,
        save_file_base_path: String,
        uploads_endpoint: String,
        rust_log: String,
        database_url: String,
        jwt_secret: String,
        allowed_host: String,
    ) -> (c: Configuration)
        ensures
            c.page_limit == page_limit,
            c.save_file_base_path@ == save_file_base_path@,
            c.uploads_endpoint@ == uploads_endpoint@,
            c.rust_log@ == rust_log@,
            c.database_url@ == database_url@,
            c.jwt_secret@ == jwt_secret@,
            c.allowed_host@ == allowed_host@,
    {
        Configuration {
            page_limit,
            save_file_base_path,
            uploads_endpoint,
            rust_log,
            database_url,
            jwt_secret,
            allowed_host,
        }
    }
}

} // verus!
