//! Typed client library for the XBRL US financial-data REST API.
//!
//! The library builds the request that each resource call sends (URL, auth
//! header, optional JSON body), decides what a response means through one
//! envelope-unwrapping routine, and models the API's records as plain data.
//! The HTTP transport itself lives outside the library; callers hand the
//! outcome of an exchange back in and receive the typed payload or an error.

pub mod client;
pub mod endpoints;
pub mod errors;
pub mod facts;
pub mod json;
pub mod models;
pub mod reports;
pub mod string_map;
pub mod taxonomy;
pub mod text;

pub use client::XbrlClient;
pub use errors::{XbrlApiError, XbrlResult};
pub use facts::{Fact, FactValue};
pub use models::SearchParams;
pub use reports::Report;
pub use taxonomy::Taxonomy;
