//! Opening an SSH session.

pub mod check;
pub mod config;
pub mod connect;
pub mod login;
pub mod readiness;
pub mod target;
pub mod text;
