//! Nginx site configurations: their model, validation, parsing and rendering.
pub mod features;
pub mod laws;
pub mod obj;
pub mod ops;
pub mod parse;
pub mod table;
pub mod target_site;
pub mod templates;
