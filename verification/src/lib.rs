//! A verified client-side core for a Flight SQL style time-series database
//! client: connection planning, statement lifecycle, result handling and
//! error-message sanitizing. The network and file I/O around it lives in a
//! thin unverified driver.

pub mod config;
pub mod connect;
pub mod errors;
pub mod results;
pub mod sanitize;
pub mod session;
pub mod text;
