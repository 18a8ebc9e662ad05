pub mod models;
pub mod routes;
