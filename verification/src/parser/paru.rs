//! Reader for what `paru -Qua` prints.

use crate::models::package::{Package, PackageRepository};
use crate::parser::pacman::{parse_update_lines, parse_updates};
use vstd::prelude::*;

verus! {

/// Parses `paru -Qua` output into the list of AUR updates. The lines have
/// the form of `checkupdates`: `package_name current_version -> new_version`.
pub fn parse_paru_output(output: &str) -> (r: Vec<Package>)
    ensures
        r.deep_view() == parse_updates(output@, PackageRepository::Aur),
{
    parse_update_lines(output, PackageRepository::Aur)
}

} // verus!
