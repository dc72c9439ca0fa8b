//! Helpers for web services: failures turned into HTTP error responses,
//! the middleware a service starts from, the version endpoint, shutdown
//! notices and the export of an API description.

pub mod app_error_v2;
pub mod axum;
pub mod failure;
pub mod manifest;
pub mod status;
