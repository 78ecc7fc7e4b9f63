//! Reviewing pending package updates before they are applied.
//!
//! Updates come from two sources, the official repositories and the AUR.
//! The user excludes packages from the upgrade, for the session or for
//! good, and is warned when a package that stays behind is required by one
//! that is upgraded.
//!
//! The crate decides and computes; it runs no command and draws nothing.
//! `scan` holds the protocol of the scan worker, `logic` the exclusion
//! list, the dependency check and the upgrade plan, `ui` the state of the
//! interactive session, and `session` what follows the interaction.

pub mod io;
pub mod logic;
pub mod models;
pub mod names;
pub mod parser;
pub mod scan;
pub mod session;
pub mod text;
pub mod ui;

pub use models::package::Package;
pub use scan::{ScanMessage, AUR_SCAN_FAILURE_MARKER, OFFICIAL_SCAN_FAILURE_MARKER};
