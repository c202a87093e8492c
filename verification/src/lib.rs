//! Verified core of a dynamic-seedbox IP reporter: the decisions about when to
//! report the host's address, what to remember from each report, how to read a
//! rotated session cookie, and whether the service counts as healthy.

pub mod timestamp;
pub mod models;
pub mod status;
pub mod scheduler;
pub mod cookie;
pub mod health;
pub mod config;
pub mod state;
pub mod mam;
