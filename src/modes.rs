//! The visual modes that can be bound to the render loop.
pub mod example_mode;
pub mod drum_mode;
