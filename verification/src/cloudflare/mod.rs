//! Cloudflare zones and DNS records: the API's data, the pending and
//! active zones kept in the database, and the decisions of domain setup.
pub mod datatype;
pub mod filtered;
pub mod public_ip;
pub mod records;
pub mod requests;
pub mod setup;
pub mod table;
pub mod time;
pub mod zones;
