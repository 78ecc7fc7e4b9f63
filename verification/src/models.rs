pub mod config;
pub mod package;
