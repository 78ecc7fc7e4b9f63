//! The upgrade that was decided on, and the command line that performs it.

use crate::models::config::Config;
use crate::models::package::{Package, PackageRepository, PackageView};
use crate::names::{sorted_distinct, sorted_names};
use crate::text::{join_text, push_joined};
use vstd::prelude::*;
use vstd::string::*;

verus! {

/// Which sources an upgrade covers.
#[derive(Debug, Clone, Copy, PartialEq, Eq, Structural)]
pub enum UpdateMode {
    /// Official repositories and AUR, through `paru`.
    EntireSystem,
    /// Official repositories only, through `pacman`.
    OfficialOnly,
}

/// What is to be upgraded and what is held back.
pub struct UpdatePlan {
    pub mode: UpdateMode,
    /// The packages that the upgrade concerns.
    pub packages: Vec<Package>,
    /// The names to hold back, in ascending order and each once.
    pub ignore_list: Vec<String>,
}

/// The test for a package from the official repositories, as a value.
pub open spec fn from_official() -> spec_fn(PackageView) -> bool {
    |p: PackageView| p.repository == PackageRepository::Official
}

/// The packages that an upgrade in `mode` concerns.
pub open spec fn planned_packages(mode: UpdateMode, all: Seq<PackageView>) -> Seq<PackageView> {
    match mode {
        UpdateMode::EntireSystem => all,
        UpdateMode::OfficialOnly => all.filter(from_official()),
    }
}

/// The program and the fixed arguments for `mode`.
pub open spec fn base_command(mode: UpdateMode) -> Seq<Seq<char>> {
    match mode {
        UpdateMode::EntireSystem => seq!["paru"@, "-Syu"@],
        UpdateMode::OfficialOnly => seq!["sudo"@, "pacman"@, "-Syu"@],
    }
}

/// The arguments that hold `ignore_list` back: none for an empty list, else
/// `--ignore` and the names joined by commas.
pub open spec fn ignore_arguments(ignore_list: Seq<Seq<char>>) -> Seq<Seq<char>> {
    if ignore_list.len() == 0 {
        Seq::empty()
    } else {
        seq!["--ignore"@, join_text(ignore_list, ","@)]
    }
}

/// The whole command line: program, fixed arguments, exclusions, and the
/// extra arguments of the settings.
pub open spec fn command_line(
    mode: UpdateMode,
    ignore_list: Seq<Seq<char>>,
    extra_args: Seq<Seq<char>>,
) -> Seq<Seq<char>> {
    base_command(mode) + ignore_arguments(ignore_list) + extra_args
}

impl UpdatePlan {
    /// Builds the command-line arguments for the update: a vector of command
    /// parts including the program name and all arguments.
    pub fn build_command(&self, config: &Config) -> (cmd: Vec<String>)
        ensures
            cmd.deep_view() == command_line(
                self.mode,
                self.ignore_list.deep_view(),
                config.behavior.extra_args.deep_view(),
            ),
    {
        let mut cmd: Vec<String> = Vec::new();
        match self.mode {
            UpdateMode::EntireSystem => {
                cmd.push("paru".to_string());
                cmd.push("-Syu".to_string());
            },
            UpdateMode::OfficialOnly => {
                cmd.push("sudo".to_string());
                cmd.push("pacman".to_string());
                cmd.push("-Syu".to_string());
            },
        }
        assert(cmd.deep_view() =~= base_command(self.mode));
        if self.ignore_list.len() > 0 {
            cmd.push("--ignore".to_string());
            let mut joined = String::new();
            push_joined(&mut joined, &self.ignore_list, ",");
            assert(joined@ =~= join_text(self.ignore_list.deep_view(), ","@));
            cmd.push(joined);
        }
        let ghost head = base_command(self.mode) + ignore_arguments(self.ignore_list.deep_view());
        assert(cmd.deep_view() =~= head);
        let extra = &config.behavior.extra_args;
        let mut i: usize = 0;
        while i < extra.len()
            invariant
                i <= extra.len(),
                cmd.deep_view() == head + extra.deep_view().take(i as int),
            decreases extra.len() - i,
        {
            let ghost before = cmd.deep_view();
            cmd.push(extra[i].clone());
            assert(cmd.deep_view() =~= before.push(extra[i as int]@));
            assert(extra.deep_view().take(i + 1) =~= extra.deep_view().take(i as int).push(
                extra[i as int]@,
            ));
            i += 1;
        }
        assert(extra.deep_view().take(extra.len() as int) =~= extra.deep_view());
        cmd
    }
}

/// Creates an update plan with the specified mode and exclusions.
///
/// For `OfficialOnly` mode, AUR packages are left out. The names to hold
/// back are put in ascending order, each once.
pub fn create_plan(mode: UpdateMode, all_packages: Vec<Package>, excluded: Vec<String>) -> (plan:
    UpdatePlan)
    ensures
        plan.mode == mode,
        plan.packages.deep_view() == planned_packages(mode, all_packages.deep_view()),
        plan.ignore_list.deep_view() == sorted_names(excluded.deep_view().to_set()),
{
    let names = excluded.as_slice();
    assert(names.deep_view() =~= excluded.deep_view());
    let ignore_list = sorted_distinct(names);
    let packages = match mode {
        UpdateMode::EntireSystem => all_packages,
        UpdateMode::OfficialOnly => {
            let ghost all = all_packages@;
            let mut kept: Vec<Package> = Vec::new();
            assert(all_packages.deep_view().take(0) =~= Seq::empty());
            for package in it: all_packages
                invariant
                    it.seq() == all,
                    all_packages@ == all,
                    kept.deep_view() == all_packages.deep_view().take(it.index() as int).filter(
                        from_official(),
                    ),
            {
                let ghost seen = all_packages.deep_view().take(it.index() as int);
                proof {
                    assert(all_packages.deep_view().take(it.index() + 1) =~= seen.push(package@));
                    seen.lemma_filter_push(package@, from_official());
                }
                match package.repository {
                    PackageRepository::Official => {
                        let ghost before = kept.deep_view();
                        kept.push(package);
                        assert(kept.deep_view() =~= before.push(package@));
                    },
                    PackageRepository::Aur => {},
                }
            }
            assert(all_packages.deep_view().take(all.len() as int) =~= all_packages.deep_view());
            kept
        },
    };
    UpdatePlan { mode, packages, ignore_list }
}

} // verus!
