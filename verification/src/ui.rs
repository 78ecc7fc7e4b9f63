pub mod app;
pub mod controller;
pub mod view;
