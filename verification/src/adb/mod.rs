pub mod command_builder;
pub mod discovery;
pub mod executor;
pub mod tracker;
