pub mod dependency;
pub mod filter;
pub mod planner;
