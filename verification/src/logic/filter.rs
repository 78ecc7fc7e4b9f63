//! The list the user chooses from: each pending update with its two
//! exclusion flags.

use crate::models::config::Config;
use crate::models::package::{Package, PackageRepository, PackageView};
use crate::names::NameSet;
use vstd::prelude::*;

verus! {

/// A pending update and whether the user excludes it, for this session or
/// for good. A permanent exclusion makes the temporary one pointless: the
/// two flags are never set together.
#[derive(Debug)]
pub struct PackageItem {
    pub package: Package,
    pub is_temporarily_ignored: bool,
    pub is_permanently_ignored: bool,
}

/// A `PackageItem` with its package by its view.
pub struct PackageItemView {
    pub package: PackageView,
    pub is_temporarily_ignored: bool,
    pub is_permanently_ignored: bool,
}

impl View for PackageItem {
    type V = PackageItemView;

    open spec fn view(&self) -> PackageItemView {
        PackageItemView {
            package: self.package@,
            is_temporarily_ignored: self.is_temporarily_ignored,
            is_permanently_ignored: self.is_permanently_ignored,
        }
    }
}

impl DeepView for PackageItem {
    type V = PackageItemView;

    open spec fn deep_view(&self) -> PackageItemView {
        self@
    }
}

impl Clone for PackageItem {
    fn clone(&self) -> (r: Self)
        ensures
            r == *self,
    {
        PackageItem {
            package: self.package.clone(),
            is_temporarily_ignored: self.is_temporarily_ignored,
            is_permanently_ignored: self.is_permanently_ignored,
        }
    }
}

/// The item is excluded, one way or the other.
pub open spec fn is_ignored(item: PackageItemView) -> bool {
    item.is_temporarily_ignored || item.is_permanently_ignored
}

/// The test `is_ignored`, as a value.
pub open spec fn ignored() -> spec_fn(PackageItemView) -> bool {
    |item: PackageItemView| is_ignored(item)
}

/// The test for a permanent exclusion, as a value.
pub open spec fn permanent() -> spec_fn(PackageItemView) -> bool {
    |item: PackageItemView| item.is_permanently_ignored
}

/// The test for an update from the official repositories, as a value.
pub open spec fn official() -> spec_fn(PackageItemView) -> bool {
    |item: PackageItemView| item.package.repository == PackageRepository::Official
}

/// The test for an update from the AUR, as a value.
pub open spec fn aur() -> spec_fn(PackageItemView) -> bool {
    |item: PackageItemView| item.package.repository == PackageRepository::Aur
}

/// The name of an item's package, as a function.
pub open spec fn name_of() -> spec_fn(PackageItemView) -> Seq<char> {
    |item: PackageItemView| item.package.name
}

/// The items for `packages`: nothing excluded for the session, and the
/// packages that `excludes` names excluded for good.
pub open spec fn items_for(packages: Seq<PackageView>, excludes: Seq<Seq<char>>) -> Seq<
    PackageItemView,
> {
    Seq::new(
        packages.len(),
        |i: int|
            PackageItemView {
                package: packages[i],
                is_temporarily_ignored: false,
                is_permanently_ignored: excludes.contains(packages[i].name),
            },
    )
}

/// The names of the excluded items, in the order of the list.
pub open spec fn ignore_list(items: Seq<PackageItemView>) -> Seq<Seq<char>> {
    items.filter(ignored()).map_values(name_of())
}

/// The names of the items excluded for good, in the order of the list.
pub open spec fn permanent_list(items: Seq<PackageItemView>) -> Seq<Seq<char>> {
    items.filter(permanent()).map_values(name_of())
}

/// No item has both flags set.
pub open spec fn flags_consistent(items: Seq<PackageItemView>) -> bool {
    forall|i: int|
        0 <= i < items.len() ==> !((#[trigger] items[i]).is_temporarily_ignored
            && items[i].is_permanently_ignored)
}

/// Creates the `PackageItem` list from packages and permanent exclusions.
pub fn create_package_items(packages: Vec<Package>, permanent_excludes: &[String]) -> (r: Vec<
    PackageItem,
>)
    ensures
        r.deep_view() == items_for(packages.deep_view(), permanent_excludes.deep_view()),
        flags_consistent(r.deep_view()),
{
    let excludes = NameSet::from_names(permanent_excludes);
    let ghost all = packages@;
    let ghost wanted = items_for(packages.deep_view(), permanent_excludes.deep_view());
    let mut r: Vec<PackageItem> = Vec::new();
    for package in it: packages
        invariant
            it.seq() == all,
            excludes@ == permanent_excludes.deep_view().to_set(),
            wanted.len() == all.len(),
            forall|k: int|
                0 <= k < all.len() ==> #[trigger] wanted[k] == (PackageItemView {
                    package: all[k]@,
                    is_temporarily_ignored: false,
                    is_permanently_ignored: permanent_excludes.deep_view().contains(all[k].name@),
                }),
            r.len() == it.index(),
            forall|k: int| 0 <= k < r.len() ==> (#[trigger] r[k])@ == wanted[k],
    {
        let is_permanently_ignored = excludes.contains(package.name.as_str());
        r.push(PackageItem { package, is_temporarily_ignored: false, is_permanently_ignored });
    }
    assert(r.deep_view() =~= wanted);
    r
}

/// Returns a list of all ignored package names (temporary + permanent).
pub fn build_ignore_list(items: &[PackageItem]) -> (r: Vec<String>)
    ensures
        r.deep_view() == ignore_list(items.deep_view()),
{
    let mut r: Vec<String> = Vec::new();
    let mut i: usize = 0;
    assert(items.deep_view().take(0) =~= Seq::empty());
    while i < items.len()
        invariant
            i <= items.len(),
            r.deep_view() == ignore_list(items.deep_view().take(i as int)),
        decreases items.len() - i,
    {
        let ghost seen = items.deep_view().take(i as int);
        let ghost item = items[i as int]@;
        proof {
            assert(items.deep_view().take(i + 1) =~= seen.push(item));
            seen.lemma_filter_push(item, ignored());
            seen.filter(ignored()).lemma_push_map_commute(name_of(), item);
        }
        if items[i].is_temporarily_ignored || items[i].is_permanently_ignored {
            let ghost before = r.deep_view();
            r.push(items[i].package.name.clone());
            assert(r.deep_view() =~= before.push(item.package.name));
        }
        i += 1;
    }
    assert(items.deep_view().take(items.len() as int) =~= items.deep_view());
    r
}

/// Returns a list of permanently ignored package names.
pub fn extract_permanent(items: &[PackageItem]) -> (r: Vec<String>)
    ensures
        r.deep_view() == permanent_list(items.deep_view()),
{
    let mut r: Vec<String> = Vec::new();
    let mut i: usize = 0;
    assert(items.deep_view().take(0) =~= Seq::empty());
    while i < items.len()
        invariant
            i <= items.len(),
            r.deep_view() == permanent_list(items.deep_view().take(i as int)),
        decreases items.len() - i,
    {
        let ghost seen = items.deep_view().take(i as int);
        let ghost item = items[i as int]@;
        proof {
            assert(items.deep_view().take(i + 1) =~= seen.push(item));
            seen.lemma_filter_push(item, permanent());
            seen.filter(permanent()).lemma_push_map_commute(name_of(), item);
        }
        if items[i].is_permanently_ignored {
            let ghost before = r.deep_view();
            r.push(items[i].package.name.clone());
            assert(r.deep_view() =~= before.push(item.package.name));
        }
        i += 1;
    }
    assert(items.deep_view().take(items.len() as int) =~= items.deep_view());
    r
}

/// Returns package statistics: how many items come from the official
/// repositories, how many from the AUR, and how many are excluded. Each
/// source is counted by the tag of its items.
pub fn calculate_stats(items: &[PackageItem]) -> (r: (usize, usize, usize))
    ensures
        r.0 == items.deep_view().filter(official()).len(),
        r.1 == items.deep_view().filter(aur()).len(),
        r.2 == items.deep_view().filter(ignored()).len(),
        r.0 + r.1 == items.len(),
{
    let mut from_official: usize = 0;
    let mut from_aur: usize = 0;
    let mut excluded: usize = 0;
    let mut i: usize = 0;
    assert(items.deep_view().take(0) =~= Seq::empty());
    while i < items.len()
        invariant
            i <= items.len(),
            from_official == items.deep_view().take(i as int).filter(official()).len(),
            from_aur == items.deep_view().take(i as int).filter(aur()).len(),
            excluded == items.deep_view().take(i as int).filter(ignored()).len(),
            from_official + from_aur == i,
            excluded <= i,
        decreases items.len() - i,
    {
        let ghost seen = items.deep_view().take(i as int);
        let ghost item = items[i as int]@;
        proof {
            assert(items.deep_view().take(i + 1) =~= seen.push(item));
            seen.lemma_filter_push(item, official());
            seen.lemma_filter_push(item, aur());
            seen.lemma_filter_push(item, ignored());
        }
        match items[i].package.repository {
            PackageRepository::Official => {
                from_official += 1;
            },
            PackageRepository::Aur => {
                from_aur += 1;
            },
        }
        if items[i].is_temporarily_ignored || items[i].is_permanently_ignored {
            excluded += 1;
        }
        i += 1;
    }
    assert(items.deep_view().take(items.len() as int) =~= items.deep_view());
    (from_official, from_aur, excluded)
}

/// The test for a package that `excludes` does not name, as a value.
pub open spec fn kept(excludes: Seq<Seq<char>>) -> spec_fn(PackageView) -> bool {
    |p: PackageView| !excludes.contains(p.name)
}

/// Leaves out the packages that `excludes` names and keeps the others in
/// order.
pub fn apply_temporary_excludes(packages: Vec<Package>, excludes: &[String]) -> (r: Vec<Package>)
    ensures
        r.deep_view() == packages.deep_view().filter(kept(excludes.deep_view())),
{
    let names = NameSet::from_names(excludes);
    let ghost pred = kept(excludes.deep_view());
    let mut r: Vec<Package> = Vec::new();
    let mut i: usize = 0;
    assert(packages.deep_view().take(0) =~= Seq::empty());
    while i < packages.len()
        invariant
            i <= packages.len(),
            names@ == excludes.deep_view().to_set(),
            pred == kept(excludes.deep_view()),
            r.deep_view() == packages.deep_view().take(i as int).filter(pred),
        decreases packages.len() - i,
    {
        let ghost seen = packages.deep_view().take(i as int);
        let ghost package = packages[i as int]@;
        proof {
            assert(packages.deep_view().take(i + 1) =~= seen.push(package));
            seen.lemma_filter_push(package, pred);
        }
        if !names.contains(packages[i].name.as_str()) {
            let ghost before = r.deep_view();
            r.push(packages[i].clone());
            assert(r.deep_view() =~= before.push(package));
        }
        i += 1;
    }
    assert(packages.deep_view().take(packages.len() as int) =~= packages.deep_view());
    r
}

/// Leaves out the packages that the settings exclude for good.
pub fn apply_permanent_excludes(packages: Vec<Package>, config: &Config) -> (r: Vec<Package>)
    ensures
        r.deep_view() == packages.deep_view().filter(kept(config.exclude.permanent.deep_view())),
{
    let excludes = config.exclude.permanent.as_slice();
    assert(excludes.deep_view() =~= config.exclude.permanent.deep_view());
    apply_temporary_excludes(packages, excludes)
}

} // verus!
