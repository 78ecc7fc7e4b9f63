//! A pending update of one package.

use vstd::prelude::*;

verus! {

/// The index a package update was found in.
#[derive(Debug, Clone, Copy, PartialEq, Eq, Structural)]
pub enum PackageRepository {
    Official,
    Aur,
}

/// One pending update. A package is identified by its name.
#[derive(Debug, PartialEq, Eq)]
pub struct Package {
    pub name: String,
    pub current_version: Option<String>,
    pub new_version: String,
    pub repository: PackageRepository,
}

/// What a `Package` says, with every text as a sequence of characters.
pub struct PackageView {
    pub name: Seq<char>,
    pub current_version: Option<Seq<char>>,
    pub new_version: Seq<char>,
    pub repository: PackageRepository,
}

impl View for Package {
    type V = PackageView;

    open spec fn view(&self) -> PackageView {
        PackageView {
            name: self.name@,
            current_version: match self.current_version {
                Some(v) => Some(v@),
                None => None,
            },
            new_version: self.new_version@,
            repository: self.repository,
        }
    }
}

impl DeepView for Package {
    type V = PackageView;

    open spec fn deep_view(&self) -> PackageView {
        self@
    }
}

impl Clone for Package {
    fn clone(&self) -> (r: Self)
        ensures
            r == *self,
    {
        let current_version = match &self.current_version {
            Some(v) => Some(v.clone()),
            None => None,
        };
        Package {
            name: self.name.clone(),
            current_version,
            new_version: self.new_version.clone(),
            repository: self.repository,
        }
    }
}

/// The names of `packages`, in order.
pub open spec fn package_names(packages: Seq<Package>) -> Seq<Seq<char>> {
    Seq::new(packages.len(), |i: int| packages[i].name@)
}

} // verus!
