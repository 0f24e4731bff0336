//! Running tmux in control mode.

pub mod launch;
pub mod queue;
pub mod reader;
pub mod ring;
pub mod types;
