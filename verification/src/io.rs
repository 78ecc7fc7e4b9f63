pub mod command;
pub mod file;
