pub mod pacman;
pub mod paru;
pub mod toml;
