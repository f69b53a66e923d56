//! The HTTP interface: reply bodies, query strings, credentials and the
//! listing of sites.
pub mod access;
pub mod list;
pub mod query;
pub mod response;
