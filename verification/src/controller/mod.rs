pub mod events;
pub mod laws;
pub mod machine;
pub mod queue;
pub mod state;

pub use machine::{Action, Controller, ControllerContext, Input, Reply};
