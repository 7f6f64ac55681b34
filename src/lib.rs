//! A gateway that answers `GET /q/{keyword}` with the results of an upstream
//! web search: settings, the error taxonomy, the checks on what upstream sent
//! back, and the replies that the server sends.
pub mod config;
pub mod errors;
pub mod num;
pub mod search;
pub mod server;
pub mod text;
