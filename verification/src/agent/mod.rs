pub mod executor;
pub mod knowledge;
pub mod loop_runner;
pub mod observer;
pub mod prompts;
pub mod providers;
pub mod uiautomator;
