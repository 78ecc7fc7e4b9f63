//! Finds ignored packages that packages still to be updated depend on.
//!
//! Updating a package while one that it requires is held back leaves the
//! system partially upgraded. The check asks a resolver, for every ignored
//! name, which packages require it, and reports each ignored name that a
//! package of the update set requires.

use crate::models::package::{Package, PackageView};
use crate::names::{
    lemma_sorted_names_exist, lemma_sorted_names_of_list, lemma_take_next_to_set, lists_in_order,
    sorted_distinct, sorted_names, strictly_sorted, NameSet,
};
use crate::text::{lemma_lex_irreflexive, lex_lt};
use crate::text::clone_names;
use vstd::prelude::*;
use vstd::string::*;

verus! {

/// An ignored package together with the packages of the update set that
/// require it, in ascending order and each once.
#[derive(Debug, PartialEq, Eq)]
pub struct DependencyConflict {
    pub ignored_package: String,
    pub required_by: Vec<String>,
}

/// A `DependencyConflict` with every name as a sequence of characters.
pub struct ConflictView {
    pub ignored_package: Seq<char>,
    pub required_by: Seq<Seq<char>>,
}

impl View for DependencyConflict {
    type V = ConflictView;

    open spec fn view(&self) -> ConflictView {
        ConflictView {
            ignored_package: self.ignored_package@,
            required_by: self.required_by.deep_view(),
        }
    }
}

impl DeepView for DependencyConflict {
    type V = ConflictView;

    open spec fn deep_view(&self) -> ConflictView {
        self@
    }
}

impl Clone for DependencyConflict {
    fn clone(&self) -> (r: Self)
        ensures
            r@ == self@,
    {
        let required_by = clone_names(&self.required_by);
        assert(required_by.deep_view() =~= self.required_by.deep_view());
        DependencyConflict { ignored_package: self.ignored_package.clone(), required_by }
    }
}

/// The conflicts found, or the reasons why the check could not be made.
pub type DependencyResult = Result<Vec<DependencyConflict>, Vec<String>>;

/// What the resolver answered for one ignored name.
pub struct Lookup {
    pub name: String,
    /// The packages that require `name`.
    pub dependents: Vec<String>,
    /// Why the resolver could not tell, if it could not.
    pub error: Option<String>,
}

/// A `Lookup` with every text as a sequence of characters.
pub struct LookupView {
    pub name: Seq<char>,
    pub dependents: Seq<Seq<char>>,
    pub error: Option<Seq<char>>,
}

/// The view of a text that may be missing.
pub open spec fn text_view(t: Option<String>) -> Option<Seq<char>> {
    match t {
        Some(s) => Some(s@),
        None => None,
    }
}

impl View for Lookup {
    type V = LookupView;

    open spec fn view(&self) -> LookupView {
        LookupView {
            name: self.name@,
            dependents: self.dependents.deep_view(),
            error: text_view(self.error),
        }
    }
}

impl DeepView for Lookup {
    type V = LookupView;

    open spec fn deep_view(&self) -> LookupView {
        self@
    }
}

/// The view of a check's result.
pub open spec fn result_view(r: DependencyResult) -> Result<Seq<ConflictView>, Seq<Seq<char>>> {
    match r {
        Ok(conflicts) => Ok(conflicts.deep_view()),
        Err(warnings) => Err(warnings.deep_view()),
    }
}

/// `n` is the name of one of the candidates.
pub open spec fn is_candidate(candidates: Seq<PackageView>, n: Seq<char>) -> bool {
    exists|i: int| 0 <= i < candidates.len() && (#[trigger] candidates[i]).name == n
}

/// The names that will be updated: those of the candidates, less the
/// ignored ones.
pub open spec fn updating(candidates: Seq<PackageView>, ignored: Seq<Seq<char>>) -> Set<Seq<char>> {
    Set::new(|n: Seq<char>| is_candidate(candidates, n) && !ignored.contains(n))
}

/// The dependents that a lookup names and that will be updated.
pub open spec fn stranded_dependents(l: LookupView, updating: Set<Seq<char>>) -> Set<Seq<char>> {
    l.dependents.to_set().intersect(updating)
}

/// Some package that will be updated requires the name of the lookup.
pub open spec fn is_required(l: LookupView, updating: Set<Seq<char>>) -> bool {
    exists|d: Seq<char>| stranded_dependents(l, updating).contains(d)
}

/// The conflict that a lookup shows, if any.
pub open spec fn conflict_of(l: LookupView, updating: Set<Seq<char>>) -> Option<ConflictView> {
    if is_required(l, updating) {
        Some(
            ConflictView {
                ignored_package: l.name,
                required_by: sorted_names(stranded_dependents(l, updating)),
            },
        )
    } else {
        None
    }
}

/// The conflicts that `lookups` show, in the order of the lookups.
pub open spec fn conflicts_of(lookups: Seq<LookupView>, updating: Set<Seq<char>>) -> Seq<
    ConflictView,
>
    decreases lookups.len(),
{
    if lookups.len() == 0 {
        Seq::empty()
    } else {
        let before = conflicts_of(lookups.drop_last(), updating);
        match conflict_of(lookups.last(), updating) {
            Some(c) => before.push(c),
            None => before,
        }
    }
}

/// The warning for a lookup that failed.
pub open spec fn warning_text(name: Seq<char>, error: Seq<char>) -> Seq<char> {
    "Failed to check dependencies for "@ + name + ": "@ + error
}

/// The warnings for the lookups that failed, in the order of the lookups.
pub open spec fn warnings_of(lookups: Seq<LookupView>) -> Seq<Seq<char>>
    decreases lookups.len(),
{
    if lookups.len() == 0 {
        Seq::empty()
    } else {
        let before = warnings_of(lookups.drop_last());
        match lookups.last().error {
            Some(e) => before.push(warning_text(lookups.last().name, e)),
            None => before,
        }
    }
}

/// The outcome of the check: the conflicts when every lookup succeeded,
/// and otherwise the warnings alone. A failed lookup blocks the whole check.
pub open spec fn verdict(
    candidates: Seq<PackageView>,
    ignored: Seq<Seq<char>>,
    lookups: Seq<LookupView>,
) -> Result<Seq<ConflictView>, Seq<Seq<char>>> {
    if warnings_of(lookups).len() == 0 {
        Ok(conflicts_of(lookups, updating(candidates, ignored)))
    } else {
        Err(warnings_of(lookups))
    }
}

/// The set of names that will be updated.
pub fn updating_names(all_packages: &[Package], ignored_packages: &[String]) -> (r: NameSet)
    ensures
        r@ == updating(all_packages.deep_view(), ignored_packages.deep_view()),
{
    let ignored = NameSet::from_names(ignored_packages);
    let mut r = NameSet::new();
    let mut i: usize = 0;
    let ghost target = updating(all_packages.deep_view(), ignored_packages.deep_view());
    while i < all_packages.len()
        invariant
            i <= all_packages.len(),
            ignored@ == ignored_packages.deep_view().to_set(),
            r@ == updating(all_packages.deep_view().take(i as int), ignored_packages.deep_view()),
        decreases all_packages.len() - i,
    {
        let ghost before = all_packages.deep_view().take(i as int);
        let ghost now = all_packages.deep_view().take(i + 1);
        let ghost name = all_packages[i as int].name@;
        let ghost old_r = r@;
        assert(now[i as int].name == name);
        assert forall|n: Seq<char>|
            is_candidate(now, n) <==> (n == name || is_candidate(before, n)) by {
            if is_candidate(now, n) {
                let k = choose|k: int| 0 <= k < now.len() && (#[trigger] now[k]).name == n;
                if k < i {
                    assert(before[k].name == n);
                }
            }
            if is_candidate(before, n) {
                let k = choose|k: int| 0 <= k < before.len() && (#[trigger] before[k]).name == n;
                assert(now[k].name == n);
            }
        }
        if !ignored.contains(all_packages[i].name.as_str()) {
            r.insert(all_packages[i].name.as_str());
            assert(r@ =~= updating(now, ignored_packages.deep_view()));
        } else {
            assert(r@ =~= updating(now, ignored_packages.deep_view()));
        }
        i += 1;
    }
    assert(all_packages.deep_view().take(all_packages.len() as int) =~= all_packages.deep_view());
    r
}

fn conflict_in(lookup: &Lookup, updating: &NameSet) -> (r: Option<DependencyConflict>)
    ensures
        match r {
            Some(c) => conflict_of(lookup@, updating@) == Some(c@),
            None => conflict_of(lookup@, updating@) is None,
        },
{
    let ghost all = lookup.dependents.deep_view();
    let mut hits: Vec<String> = Vec::new();
    let mut j: usize = 0;
    assert(hits.deep_view().to_set() =~= all.take(0).to_set().intersect(updating@));
    while j < lookup.dependents.len()
        invariant
            j <= lookup.dependents.len(),
            all == lookup.dependents.deep_view(),
            hits.deep_view().to_set() == all.take(j as int).to_set().intersect(updating@),
        decreases lookup.dependents.len() - j,
    {
        proof {
            lemma_take_next_to_set(all, j as int);
        }
        if updating.contains(lookup.dependents[j].as_str()) {
            let ghost before = hits.deep_view();
            hits.push(lookup.dependents[j].clone());
            proof {
                let after = hits.deep_view();
                assert(after.take(before.len() as int) =~= before);
                assert(after.take(before.len() as int + 1) =~= after);
                lemma_take_next_to_set(after, before.len() as int);
                assert(after.to_set() =~= all.take(j + 1).to_set().intersect(updating@));
            }
        } else {
            assert(hits.deep_view().to_set() =~= all.take(j + 1).to_set().intersect(updating@));
        }
        j += 1;
    }
    assert(all.take(all.len() as int) =~= all);
    if hits.len() == 0 {
        assert forall|d: Seq<char>| !stranded_dependents(lookup@, updating@).contains(d) by {
            if hits.deep_view().to_set().contains(d) {
                assert(hits.deep_view().contains(d));
            }
        }
        None
    } else {
        assert(hits.deep_view().to_set().contains(hits.deep_view()[0]));
        assert(stranded_dependents(lookup@, updating@).contains(hits.deep_view()[0]));
        let found = hits.as_slice();
        assert(found.deep_view() =~= hits.deep_view());
        let required_by = sorted_distinct(found);
        Some(DependencyConflict { ignored_package: lookup.name.clone(), required_by })
    }
}

fn conflicts_in(lookups: &Vec<Lookup>, updating: &NameSet) -> (r: Vec<DependencyConflict>)
    ensures
        r.deep_view() == conflicts_of(lookups.deep_view(), updating@),
{
    let mut r: Vec<DependencyConflict> = Vec::new();
    let mut i: usize = 0;
    while i < lookups.len()
        invariant
            i <= lookups.len(),
            r.deep_view() == conflicts_of(lookups.deep_view().take(i as int), updating@),
        decreases lookups.len() - i,
    {
        proof {
            let seen = lookups.deep_view().take(i + 1);
            assert(seen.drop_last() =~= lookups.deep_view().take(i as int));
            assert(seen.last() == lookups[i as int]@);
        }
        match conflict_in(&lookups[i], updating) {
            Some(c) => {
                let ghost before = r.deep_view();
                r.push(c);
                assert(r.deep_view() =~= before.push(c@));
            },
            None => {},
        }
        i += 1;
    }
    assert(lookups.deep_view().take(lookups.len() as int) =~= lookups.deep_view());
    r
}

fn warnings_in(lookups: &Vec<Lookup>) -> (r: Vec<String>)
    ensures
        r.deep_view() == warnings_of(lookups.deep_view()),
{
    let mut r: Vec<String> = Vec::new();
    let mut i: usize = 0;
    while i < lookups.len()
        invariant
            i <= lookups.len(),
            r.deep_view() == warnings_of(lookups.deep_view().take(i as int)),
        decreases lookups.len() - i,
    {
        proof {
            let seen = lookups.deep_view().take(i + 1);
            assert(seen.drop_last() =~= lookups.deep_view().take(i as int));
            assert(seen.last() == lookups[i as int]@);
        }
        match &lookups[i].error {
            Some(e) => {
                let ghost before = r.deep_view();
                let mut w = "Failed to check dependencies for ".to_string();
                w.append(lookups[i].name.as_str());
                w.append(": ");
                w.append(e.as_str());
                assert(w@ =~= warning_text(lookups[i as int].name@, e@));
                r.push(w);
                assert(r.deep_view() =~= before.push(w@));
            },
            None => {},
        }
        i += 1;
    }
    assert(lookups.deep_view().take(lookups.len() as int) =~= lookups.deep_view());
    r
}

/// Judges what the resolver answered: the conflicts that the lookups show
/// when all of them succeeded, and otherwise one warning for each that
/// failed.
pub fn conflicts_from_lookups(
    all_packages: &[Package],
    ignored_packages: &[String],
    lookups: &Vec<Lookup>,
) -> (r: DependencyResult)
    ensures
        result_view(r) == verdict(
            all_packages.deep_view(),
            ignored_packages.deep_view(),
            lookups.deep_view(),
        ),
{
    let warnings = warnings_in(lookups);
    if warnings.len() == 0 {
        let updating = updating_names(all_packages, ignored_packages);
        Ok(conflicts_in(lookups, &updating))
    } else {
        Err(warnings)
    }
}

/// The names of `lookups`, in order.
pub open spec fn lookup_names(lookups: Seq<LookupView>) -> Seq<Seq<char>> {
    Seq::new(lookups.len(), |i: int| lookups[i].name)
}

/// `lookups` are the lookups of a check of `ignored`: one for each ignored
/// name, in ascending order of the names.
pub open spec fn looked_up(lookups: Seq<LookupView>, ignored: Seq<Seq<char>>) -> bool {
    lookup_names(lookups) == sorted_names(ignored.to_set())
}

/// `l` is what a call of the resolver `f` on the name of `l` may return.
pub open spec fn answered_by<F: FnMut(&str) -> (Vec<String>, Option<String>)>(
    f: F,
    l: LookupView,
) -> bool {
    exists|s: &str, out: (Vec<String>, Option<String>)|
        s@ == l.name && call_ensures(f, (s,), out) && out.0.deep_view() == l.dependents
            && text_view(out.1) == l.error
}

/// `l` is what a call of the resolver `f` on the name of `l` may return,
/// for a resolver that cannot fail.
pub open spec fn listed_by<F: FnMut(&str) -> Vec<String>>(f: F, l: LookupView) -> bool {
    l.error is None && exists|s: &str, out: Vec<String>|
        s@ == l.name && call_ensures(f, (s,), out) && out.deep_view() == l.dependents
}

/// Checks for dependency conflicts given packages and a resolver function.
///
/// * `all_packages`: all packages available for update
/// * `ignored_packages`: names of the packages being ignored; a name listed
///   twice counts once
/// * `get_required_by`: returns the packages that require a name, and an
///   error message when it could not find out
///
/// The resolver is called once for each ignored name, in ascending order of
/// the names. The result is the `verdict` on what it answered:
/// `Ok(conflicts)` when every call succeeded, `Err(warnings)` when any
/// failed.
pub fn check_conflicts<F>(
    all_packages: &[Package],
    ignored_packages: &[String],
    get_required_by: F,
) -> (r: DependencyResult) where F: FnMut(&str) -> (Vec<String>, Option<String>)
    requires
        forall|s: &str| call_requires(get_required_by, (s,)),
    ensures
        exists|lookups: Seq<LookupView>|
            {
                &&& looked_up(lookups, ignored_packages.deep_view())
                &&& forall|i: int|
                    0 <= i < lookups.len() ==> answered_by(get_required_by, #[trigger] lookups[i])
                &&& result_view(r) == verdict(
                    all_packages.deep_view(),
                    ignored_packages.deep_view(),
                    lookups,
                )
            },
{
    let mut get_required_by = get_required_by;
    let ghost f = get_required_by;
    let names = sorted_distinct(ignored_packages);
    let mut lookups: Vec<Lookup> = Vec::new();
    let mut i: usize = 0;
    while i < names.len()
        invariant
            i <= names.len(),
            get_required_by == f,
            forall|s: &str| call_requires(f, (s,)),
            lookups.len() == i,
            forall|k: int| 0 <= k < i ==> (#[trigger] lookups[k])@.name == names[k]@,
            forall|k: int| 0 <= k < i ==> answered_by(f, (#[trigger] lookups[k])@),
        decreases names.len() - i,
    {
        let name = names[i].as_str();
        let out = get_required_by(name);
        let ghost answer = out;
        let lookup = Lookup { name: names[i].clone(), dependents: out.0, error: out.1 };
        assert(answered_by(f, lookup@)) by {
            assert(name@ == lookup@.name && call_ensures(f, (name,), answer));
        }
        lookups.push(lookup);
        i += 1;
    }
    let r = conflicts_from_lookups(all_packages, ignored_packages, &lookups);
    proof {
        let views = lookups.deep_view();
        assert(lookup_names(views) =~= names.deep_view());
        assert(looked_up(views, ignored_packages.deep_view()));
        assert forall|k: int| 0 <= k < views.len() implies answered_by(f, #[trigger] views[k]) by {
            assert(views[k] == lookups[k]@);
        }
    }
    r
}

/// Detects dependency conflicts when packages are ignored, with a resolver
/// that always answers.
///
/// The resolver is called once for each ignored name, in ascending order of
/// the names. The result lists, in that order, each ignored name that a
/// package of the update set requires, with those packages.
pub fn detect_conflicts<F>(
    all_packages: &[Package],
    ignored_packages: &[String],
    get_required_by: F,
) -> (r: Vec<DependencyConflict>) where F: FnMut(&str) -> Vec<String>
    requires
        forall|s: &str| call_requires(get_required_by, (s,)),
    ensures
        exists|lookups: Seq<LookupView>|
            {
                &&& looked_up(lookups, ignored_packages.deep_view())
                &&& forall|i: int|
                    0 <= i < lookups.len() ==> listed_by(get_required_by, #[trigger] lookups[i])
                &&& r.deep_view() == conflicts_of(
                    lookups,
                    updating(all_packages.deep_view(), ignored_packages.deep_view()),
                )
            },
{
    let mut get_required_by = get_required_by;
    let ghost f = get_required_by;
    let names = sorted_distinct(ignored_packages);
    let mut lookups: Vec<Lookup> = Vec::new();
    let mut i: usize = 0;
    while i < names.len()
        invariant
            i <= names.len(),
            get_required_by == f,
            forall|s: &str| call_requires(f, (s,)),
            lookups.len() == i,
            forall|k: int| 0 <= k < i ==> (#[trigger] lookups[k])@.name == names[k]@,
            forall|k: int| 0 <= k < i ==> listed_by(f, (#[trigger] lookups[k])@),
        decreases names.len() - i,
    {
        let name = names[i].as_str();
        let dependents = get_required_by(name);
        let ghost answer = dependents;
        let lookup = Lookup { name: names[i].clone(), dependents, error: None };
        assert(listed_by(f, lookup@)) by {
            assert(name@ == lookup@.name && call_ensures(f, (name,), answer));
        }
        lookups.push(lookup);
        i += 1;
    }
    let updating = updating_names(all_packages, ignored_packages);
    let r = conflicts_in(&lookups, &updating);
    proof {
        let views = lookups.deep_view();
        assert(lookup_names(views) =~= names.deep_view());
        assert(looked_up(views, ignored_packages.deep_view()));
        assert forall|k: int| 0 <= k < views.len() implies listed_by(f, #[trigger] views[k]) by {
            assert(views[k] == lookups[k]@);
        }
    }
    r
}

/// The names that the entries of `conflicts` are about, in order.
pub open spec fn conflict_names(conflicts: Seq<ConflictView>) -> Seq<Seq<char>> {
    Seq::new(conflicts.len(), |i: int| conflicts[i].ignored_package)
}

/// The entries of a report are the conflicts of the single lookups, no
/// more and no less.
pub proof fn lemma_conflicts_are_those_of_the_lookups(
    lookups: Seq<LookupView>,
    updating: Set<Seq<char>>,
)
    ensures
        forall|e: ConflictView|
            conflicts_of(lookups, updating).contains(e) <==> exists|i: int|
                0 <= i < lookups.len() && conflict_of(#[trigger] lookups[i], updating) == Some(e),
    decreases lookups.len(),
{
    let all = conflicts_of(lookups, updating);
    if lookups.len() > 0 {
        let front = lookups.drop_last();
        let before = conflicts_of(front, updating);
        lemma_conflicts_are_those_of_the_lookups(front, updating);
        assert forall|e: ConflictView| all.contains(e) <==> exists|i: int|
            0 <= i < lookups.len() && conflict_of(#[trigger] lookups[i], updating) == Some(
                e,
            ) by {
            if all.contains(e) {
                let k = choose|k: int| 0 <= k < all.len() && all[k] == e;
                if k < before.len() {
                    assert(before[k] == e);
                    assert(before.contains(e));
                    let i = choose|i: int|
                        0 <= i < front.len() && conflict_of(#[trigger] front[i], updating) == Some(
                            e,
                        );
                    assert(lookups[i] == front[i]);
                } else {
                    assert(conflict_of(lookups[lookups.len() - 1], updating) == Some(e));
                }
            }
            if exists|i: int|
                0 <= i < lookups.len() && conflict_of(#[trigger] lookups[i], updating) == Some(e) {
                let i = choose|i: int|
                    0 <= i < lookups.len() && conflict_of(#[trigger] lookups[i], updating) == Some(
                        e,
                    );
                if i < front.len() {
                    assert(front[i] == lookups[i]);
                    assert(before.contains(e));
                    let k = choose|k: int| 0 <= k < before.len() && before[k] == e;
                    assert(all[k] == e);
                } else {
                    assert(all[all.len() - 1] == e);
                }
            }
        }
    } else {
        assert forall|e: ConflictView| !all.contains(e) by {
            if all.contains(e) {
                let k = choose|k: int| 0 <= k < all.len() && all[k] == e;
            }
        }
    }
}

/// Each entry of a report is the conflict of one of the lookups, and the
/// entries after it are the conflicts of later lookups.
proof fn lemma_conflict_names_come_from_lookups(
    lookups: Seq<LookupView>,
    updating: Set<Seq<char>>,
    k: int,
) -> (i: int)
    requires
        0 <= k < conflicts_of(lookups, updating).len(),
    ensures
        0 <= i < lookups.len(),
        conflict_of(lookups[i], updating) == Some(conflicts_of(lookups, updating)[k]),
        forall|j: int|
            #![trigger conflicts_of(lookups, updating)[j]]
            k < j < conflicts_of(lookups, updating).len() ==> exists|m: int|
                i < m < lookups.len() && conflict_of(#[trigger] lookups[m], updating) == Some(
                    conflicts_of(lookups, updating)[j],
                ),
    decreases lookups.len(),
{
    let all = conflicts_of(lookups, updating);
    let front = lookups.drop_last();
    let before = conflicts_of(front, updating);
    let last = lookups.len() - 1;
    if k < before.len() {
        let i = lemma_conflict_names_come_from_lookups(front, updating, k);
        assert(front[i] == lookups[i]);
        assert forall|j: int| #![trigger all[j]] k < j < all.len() implies exists|m: int|
            i < m < lookups.len() && conflict_of(#[trigger] lookups[m], updating) == Some(
                all[j],
            ) by {
            if j < before.len() {
                assert(all[j] == before[j]);
                let m = choose|m: int|
                    i < m < front.len() && conflict_of(#[trigger] front[m], updating) == Some(
                        before[j],
                    );
                assert(lookups[m] == front[m]);
            } else {
                assert(conflict_of(lookups[last], updating) == Some(all[j]));
            }
        }
        i
    } else {
        last
    }
}

/// The report follows the lookups: when the names of the lookups ascend,
/// so do the names that the report is about, and none is reported twice.
pub proof fn lemma_conflicts_are_sorted(lookups: Seq<LookupView>, updating: Set<Seq<char>>)
    requires
        strictly_sorted(lookup_names(lookups)),
    ensures
        strictly_sorted(conflict_names(conflicts_of(lookups, updating))),
{
    let all = conflicts_of(lookups, updating);
    let names = conflict_names(all);
    assert forall|a: int, b: int| 0 <= a < b < names.len() implies lex_lt(
        #[trigger] names[a],
        #[trigger] names[b],
    ) by {
        let i = lemma_conflict_names_come_from_lookups(lookups, updating, a);
        let later = all[b];
        let m = choose|m: int|
            i < m < lookups.len() && conflict_of(#[trigger] lookups[m], updating) == Some(all[b]);
        assert(lex_lt(lookup_names(lookups)[i], lookup_names(lookups)[m]));
    }
}

/// An ignored package that no package of the update set requires is not
/// reported: no entry of the report is about a name whose lookups found no
/// dependent that will be updated.
pub proof fn lemma_unrequired_package_is_not_reported(
    candidates: Seq<PackageView>,
    ignored: Seq<Seq<char>>,
    lookups: Seq<LookupView>,
    name: Seq<char>,
)
    requires
        forall|i: int|
            0 <= i < lookups.len() && (#[trigger] lookups[i]).name == name ==> !is_required(
                lookups[i],
                updating(candidates, ignored),
            ),
    ensures
        !conflict_names(conflicts_of(lookups, updating(candidates, ignored))).contains(name),
        verdict(candidates, ignored, lookups) matches Ok(report) ==> !conflict_names(
            report,
        ).contains(name),
{
    let upd = updating(candidates, ignored);
    let all = conflicts_of(lookups, upd);
    if conflict_names(all).contains(name) {
        let k = choose|k: int| 0 <= k < all.len() && conflict_names(all)[k] == name;
        let i = lemma_conflict_names_come_from_lookups(lookups, upd, k);
        assert(lookups[i].name == name);
    }
}

/// Every ignored name is looked up, and no name twice: the lookups of a
/// check ascend by name, and each ignored name is the name of one of them.
pub proof fn lemma_each_ignored_name_is_looked_up(
    ignored: Seq<Seq<char>>,
    lookups: Seq<LookupView>,
    name: Seq<char>,
)
    requires
        looked_up(lookups, ignored),
        ignored.contains(name),
    ensures
        strictly_sorted(lookup_names(lookups)),
        exists|i: int| 0 <= i < lookups.len() && (#[trigger] lookups[i]).name == name,
{
    lemma_sorted_names_of_list(ignored);
    let names = lookup_names(lookups);
    assert(names.to_set().contains(name));
    assert(names.contains(name));
    let i = choose|i: int| 0 <= i < names.len() && names[i] == name;
    assert(lookups[i].name == name);
}

/// An ignored package that some package of the update set requires is
/// reported once, with exactly the dependents that will be updated, in
/// ascending order: when the lookup of `lookups[i]` names a dependent `d`
/// that will be updated, the report has an entry about its name, and every
/// entry about its name lists the names that are both among its dependents
/// and in the update set. The entries of the report ascend by name.
pub proof fn lemma_required_package_is_reported(
    candidates: Seq<PackageView>,
    ignored: Seq<Seq<char>>,
    lookups: Seq<LookupView>,
    i: int,
    d: Seq<char>,
)
    requires
        0 <= i < lookups.len(),
        looked_up(lookups, ignored),
        lookups[i].dependents.contains(d),
        updating(candidates, ignored).contains(d),
    ensures
        ({
            let upd = updating(candidates, ignored);
            let report = conflicts_of(lookups, upd);
            &&& verdict(candidates, ignored, lookups) matches Ok(found) ==> found == report
            &&& conflict_names(report).contains(lookups[i].name)
            &&& forall|k: int|
                0 <= k < report.len() && (#[trigger] report[k]).ignored_package == lookups[i].name
                    ==> lists_in_order(
                    report[k].required_by,
                    lookups[i].dependents.to_set().intersect(upd),
                )
            &&& strictly_sorted(conflict_names(report))
        }),
{
    let upd = updating(candidates, ignored);
    let report = conflicts_of(lookups, upd);
    let name = lookups[i].name;
    lemma_sorted_names_of_list(ignored);
    assert(stranded_dependents(lookups[i], upd).contains(d));
    assert(is_required(lookups[i], upd));
    let entry = conflict_of(lookups[i], upd)->0;
    lemma_conflicts_are_those_of_the_lookups(lookups, upd);
    assert(report.contains(entry));
    let k0 = choose|k: int| 0 <= k < report.len() && report[k] == entry;
    assert(conflict_names(report)[k0] == name);
    lemma_conflicts_are_sorted(lookups, upd);
    lemma_sorted_names_exist(lookups[i].dependents, upd);
    assert forall|k: int|
        0 <= k < report.len() && (#[trigger] report[k]).ignored_package == name implies lists_in_order(
        report[k].required_by,
        lookups[i].dependents.to_set().intersect(upd),
    ) by {
        let m = lemma_conflict_names_come_from_lookups(lookups, upd, k);
        if m != i {
            assert(lookup_names(lookups)[m] == lookup_names(lookups)[i]);
            lemma_lex_irreflexive(name);
            if m < i {
                assert(lex_lt(lookup_names(lookups)[m], lookup_names(lookups)[i]));
            } else {
                assert(lex_lt(lookup_names(lookups)[i], lookup_names(lookups)[m]));
            }
        }
    }
}

/// A failed lookup blocks the whole check: the verdict is an error, with a
/// warning for each lookup that failed, if any lookup failed, and a report
/// only if none did.
pub proof fn lemma_failed_lookup_blocks_check(
    candidates: Seq<PackageView>,
    ignored: Seq<Seq<char>>,
    lookups: Seq<LookupView>,
)
    ensures
        verdict(candidates, ignored, lookups) is Err <==> exists|i: int|
            0 <= i < lookups.len() && (#[trigger] lookups[i]).error is Some,
        forall|i: int|
            0 <= i < lookups.len() && (#[trigger] lookups[i]).error is Some ==> warnings_of(
                lookups,
            ).contains(warning_text(lookups[i].name, lookups[i].error->0)),
        verdict(candidates, ignored, lookups) matches Err(w) ==> w == warnings_of(lookups),
    decreases lookups.len(),
{
    if lookups.len() > 0 {
        let front = lookups.drop_last();
        let last = lookups.last();
        lemma_failed_lookup_blocks_check(candidates, ignored, front);
        let before = warnings_of(front);
        let all = warnings_of(lookups);
        if exists|i: int| 0 <= i < front.len() && (#[trigger] front[i]).error is Some {
            let i = choose|i: int| 0 <= i < front.len() && (#[trigger] front[i]).error is Some;
            assert(lookups[i] == front[i]);
        }
        if exists|i: int| 0 <= i < lookups.len() && (#[trigger] lookups[i]).error is Some {
            let i = choose|i: int| 0 <= i < lookups.len() && (#[trigger] lookups[i]).error is Some;
            if i < front.len() {
                assert(front[i] == lookups[i]);
            }
        }
        assert forall|i: int|
            0 <= i < lookups.len() && (#[trigger] lookups[i]).error is Some implies all.contains(
            warning_text(lookups[i].name, lookups[i].error->0),
        ) by {
            let w = warning_text(lookups[i].name, lookups[i].error->0);
            if i < front.len() {
                assert(front[i] == lookups[i]);
                assert(before.contains(w));
                let k = choose|k: int| 0 <= k < before.len() && before[k] == w;
                assert(all[k] == w);
            } else {
                assert(all[all.len() - 1] == w);
            }
        }
    }
}

} // verus!
