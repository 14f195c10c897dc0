//! Verified core of renmap, a small desktop front end for TCP SYN port scans.
//!
//! The graphical shell, the network scan itself and the SQLite file live in
//! the application around this crate; here stand the decisions it makes: the
//! screen state and how each interaction changes it, the checks made on a
//! scan request before a scan is started, the history of finished scans and
//! the rows of the result table.
pub mod app;
pub mod db;
pub mod options;
pub mod port;
pub mod results;
pub mod scan;
pub mod store;
pub mod text;
