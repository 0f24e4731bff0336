//! Sessions with tmux in control mode: how to reach a host over SSH, how to
//! start tmux there or locally, and how to read what it prints.
//!
//! The crate holds the decisions; sockets, processes and files belong to the
//! program around it, which performs what a stage asks for and reports back.

pub mod ssh;
pub mod tmux_api;
