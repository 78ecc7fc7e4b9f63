//! The settings a session starts from.

use crate::text::clone_names;
use vstd::prelude::*;

verus! {

/// Packages that stay excluded from one session to the next.
#[derive(Debug)]
pub struct ExcludeConfig {
    pub permanent: Vec<String>,
}

/// How the upgrade command is run.
#[derive(Debug)]
pub struct BehaviorConfig {
    pub warn_stale_system: bool,
    /// Arguments to add at the end of the upgrade command.
    pub extra_args: Vec<String>,
}

/// The settings of the program.
#[derive(Debug)]
pub struct Config {
    pub exclude: ExcludeConfig,
    pub behavior: BehaviorConfig,
}

impl Default for ExcludeConfig {
    fn default() -> (r: Self)
        ensures
            r.permanent@.len() == 0,
    {
        ExcludeConfig { permanent: Vec::new() }
    }
}

impl Default for BehaviorConfig {
    fn default() -> (r: Self)
        ensures
            r.warn_stale_system,
            r.extra_args@.len() == 0,
    {
        BehaviorConfig { warn_stale_system: true, extra_args: Vec::new() }
    }
}

impl Default for Config {
    fn default() -> (r: Self)
        ensures
            r.exclude.permanent@.len() == 0,
            r.behavior.warn_stale_system,
            r.behavior.extra_args@.len() == 0,
    {
        Config { exclude: ExcludeConfig::default(), behavior: BehaviorConfig::default() }
    }
}

impl Clone for ExcludeConfig {
    fn clone(&self) -> (r: Self)
        ensures
            r.permanent@ == self.permanent@,
    {
        ExcludeConfig { permanent: clone_names(&self.permanent) }
    }
}

impl Clone for BehaviorConfig {
    fn clone(&self) -> (r: Self)
        ensures
            r.warn_stale_system == self.warn_stale_system,
            r.extra_args@ == self.extra_args@,
    {
        BehaviorConfig {
            warn_stale_system: self.warn_stale_system,
            extra_args: clone_names(&self.extra_args),
        }
    }
}

impl Clone for Config {
    fn clone(&self) -> (r: Self)
        ensures
            r.exclude.permanent@ == self.exclude.permanent@,
            r.behavior.warn_stale_system == self.behavior.warn_stale_system,
            r.behavior.extra_args@ == self.behavior.extra_args@,
    {
        Config { exclude: self.exclude.clone(), behavior: self.behavior.clone() }
    }
}

} // verus!
