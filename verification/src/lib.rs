pub mod text;
pub mod encoding;
pub mod error;
pub mod adb;
pub mod agent;
pub mod apk;
pub mod requirements;
pub mod services;
pub mod command_utils;
pub mod commands;
