pub mod device_props;
pub mod file_transfer;
pub mod device_actions;
pub mod package_actions;
pub mod wireless;
pub mod shell;
pub mod device;
