//! Hosting of JavaScript sites: installation logs, environment files, the
//! deployment pipeline, and the outcomes of git and docker.
pub mod env;
pub mod laws;
pub mod log;
pub mod pipeline;
pub mod table;
pub mod themes;
pub mod tools;
