//! Safe nginx usage behind a REST API: nginx sites with their certificates
//! and Cloudflare records, and the hosting of JavaScript sites.
use vstd::prelude::*;

pub mod api;
pub mod bindings;
pub mod cloudflare;
pub mod command;
pub mod database;
pub mod deploy;
pub mod nginx;
pub mod text;

verus! {

} // verus!
