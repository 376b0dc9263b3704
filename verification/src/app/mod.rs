//! The long-running loops of the application, reduced to their decisions.

pub mod content;
pub mod events;
pub mod input;
pub mod lifecycle;
pub mod pool;
pub mod reader;
pub mod registry;
pub mod render;
pub mod scheduler;
pub mod shutdown;
pub mod state;
pub mod time;
