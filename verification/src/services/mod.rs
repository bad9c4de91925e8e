pub mod scrcpy;
