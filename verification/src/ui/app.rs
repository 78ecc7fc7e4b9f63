//! The state of the interactive session and its transitions.

use crate::logic::dependency::{ConflictView, DependencyConflict};
use crate::logic::filter::{
    aur, build_ignore_list, calculate_stats, create_package_items, extract_permanent,
    flags_consistent, ignore_list, ignored, items_for, official, permanent_list, PackageItemView,
};
use crate::models::package::{Package, PackageView};
use crate::scan::{
    lemma_warning_names_failed_sources, warning_text, ScanMessage, ScanMessageView,
    OFFICIAL_SCAN_FAILURE_MARKER,
};
use crate::text::{clone_names, contains_text, str_contains};
use vstd::hash_map::StringHashMap;
use vstd::prelude::*;

pub use crate::logic::filter::PackageItem;

verus! {

/// What the user decided, for the caller to act on.
#[derive(Debug, Clone, Copy, PartialEq, Eq, Structural)]
pub enum UIEvent {
    UpdateEntireSystem,
    UpdateOfficialOnly,
    Reload,
    Quit,
}

/// Where the scan stands.
#[derive(Debug, PartialEq)]
pub enum LoadingState {
    Scanning,
    Ready,
    NoUpdates,
    Error(String),
}

impl Clone for LoadingState {
    fn clone(&self) -> (r: Self)
        ensures
            r == *self,
    {
        match self {
            LoadingState::Scanning => LoadingState::Scanning,
            LoadingState::Ready => LoadingState::Ready,
            LoadingState::NoUpdates => LoadingState::NoUpdates,
            LoadingState::Error(message) => LoadingState::Error(message.clone()),
        }
    }
}

/// A `LoadingState` with its message as a sequence of characters.
pub enum LoadingStateView {
    Scanning,
    Ready,
    NoUpdates,
    Error(Seq<char>),
}

impl View for LoadingState {
    type V = LoadingStateView;

    open spec fn view(&self) -> LoadingStateView {
        match *self {
            LoadingState::Scanning => LoadingStateView::Scanning,
            LoadingState::Ready => LoadingStateView::Ready,
            LoadingState::NoUpdates => LoadingStateView::NoUpdates,
            LoadingState::Error(m) => LoadingStateView::Error(m@),
        }
    }
}

/// The state of one interactive session.
pub struct AppState {
    /// The pending updates with their exclusion flags.
    pub packages: Vec<PackageItem>,
    /// The row of the list that the cursor is on.
    pub cursor_position: usize,
    pub show_help: bool,
    pub loading_state: LoadingState,
    /// The status line of the scan.
    pub loading_message: String,
    /// The warnings of the scan; they only ever grow.
    pub scan_warnings: Vec<String>,
    /// The conflicts that the last dependency check found.
    pub dependency_conflicts: Vec<DependencyConflict>,
    /// Whether the dependency warning is shown. While it is, it takes every
    /// key.
    pub show_dependency_warning: bool,
    /// The update the user asked for. It is set when the user commits, held
    /// while the dependency warning is shown, taken when the user confirms
    /// and dropped when the user declines.
    pub pending_action: Option<UIEvent>,
    /// What is known of the packages that require a package: for each name
    /// that was looked up with success, its dependents.
    pub reverse_deps_cache: StringHashMap<Vec<String>>,
}

/// An `AppState` with every text as a sequence of characters.
pub struct AppStateView {
    pub packages: Seq<PackageItemView>,
    pub cursor_position: nat,
    pub show_help: bool,
    pub loading_state: LoadingStateView,
    pub loading_message: Seq<char>,
    pub scan_warnings: Seq<Seq<char>>,
    pub dependency_conflicts: Seq<ConflictView>,
    pub show_dependency_warning: bool,
    pub pending_action: Option<UIEvent>,
    pub reverse_deps_cache: Map<Seq<char>, Seq<Seq<char>>>,
}

/// The view of a list of names, as a function.
pub open spec fn names_view() -> spec_fn(Vec<String>) -> Seq<Seq<char>> {
    |names: Vec<String>| names.deep_view()
}

impl View for AppState {
    type V = AppStateView;

    open spec fn view(&self) -> AppStateView {
        AppStateView {
            packages: self.packages.deep_view(),
            cursor_position: self.cursor_position as nat,
            show_help: self.show_help,
            loading_state: self.loading_state@,
            loading_message: self.loading_message@,
            scan_warnings: self.scan_warnings.deep_view(),
            dependency_conflicts: self.dependency_conflicts.deep_view(),
            show_dependency_warning: self.show_dependency_warning,
            pending_action: self.pending_action,
            reverse_deps_cache: self.reverse_deps_cache@.map_values(names_view()),
        }
    }
}

/// The state in which a session starts: scanning, with nothing known.
pub open spec fn loading() -> AppStateView {
    AppStateView {
        packages: Seq::empty(),
        cursor_position: 0,
        show_help: false,
        loading_state: LoadingStateView::Scanning,
        loading_message: "Initializing..."@,
        scan_warnings: Seq::empty(),
        dependency_conflicts: Seq::empty(),
        show_dependency_warning: false,
        pending_action: None,
        reverse_deps_cache: Map::empty(),
    }
}

/// The state that shows `packages` for choosing.
pub open spec fn ready_with(packages: Seq<PackageItemView>) -> AppStateView {
    AppStateView {
        packages,
        loading_state: LoadingStateView::Ready,
        loading_message: Seq::empty(),
        ..loading()
    }
}

/// An item with its temporary flag flipped.
pub open spec fn flip_temporary(item: PackageItemView) -> PackageItemView {
    PackageItemView { is_temporarily_ignored: !item.is_temporarily_ignored, ..item }
}

/// An item with its permanent flag flipped. Setting the permanent flag
/// clears the temporary one.
pub open spec fn flip_permanent(item: PackageItemView) -> PackageItemView {
    PackageItemView {
        is_permanently_ignored: !item.is_permanently_ignored,
        is_temporarily_ignored: item.is_permanently_ignored && item.is_temporarily_ignored,
        ..item
    }
}

impl AppStateView {
    /// The cursor is on an item, or at 0 when there is none.
    pub open spec fn cursor_in_bounds(self) -> bool {
        self.cursor_position == 0 || self.cursor_position < self.packages.len()
    }

    /// What must hold of a state at all times: no item is excluded both
    /// ways, and the cursor is on the list.
    pub open spec fn wf(self) -> bool {
        flags_consistent(self.packages) && self.cursor_in_bounds()
    }

    /// The state after the cursor went up, stopping at the first item.
    pub open spec fn moved_up(self) -> AppStateView {
        if self.cursor_position > 0 {
            AppStateView { cursor_position: (self.cursor_position - 1) as nat, ..self }
        } else {
            self
        }
    }

    /// The state after the cursor went down, stopping at the last item.
    pub open spec fn moved_down(self) -> AppStateView {
        if self.cursor_position + 1 < self.packages.len() {
            AppStateView { cursor_position: self.cursor_position + 1, ..self }
        } else {
            self
        }
    }

    /// The state after the temporary exclusion of the item under the cursor
    /// was toggled. An item that is excluded for good stays as it is. A
    /// change of a flag empties the cache.
    pub open spec fn with_temporary_toggled(self) -> AppStateView {
        let i = self.cursor_position as int;
        if i < self.packages.len() && !self.packages[i].is_permanently_ignored {
            AppStateView {
                packages: self.packages.update(i, flip_temporary(self.packages[i])),
                reverse_deps_cache: Map::empty(),
                ..self
            }
        } else {
            self
        }
    }

    /// The state after the permanent exclusion of the item under the cursor
    /// was toggled. A change of a flag empties the cache.
    pub open spec fn with_permanent_toggled(self) -> AppStateView {
        let i = self.cursor_position as int;
        if i < self.packages.len() {
            AppStateView {
                packages: self.packages.update(i, flip_permanent(self.packages[i])),
                reverse_deps_cache: Map::empty(),
                ..self
            }
        } else {
            self
        }
    }

    /// The state after a scan handed over `packages`, of which `excludes`
    /// names those excluded for good: the list is replaced, the cursor goes
    /// back to the first item and the cache is emptied.
    pub open spec fn with_packages(
        self,
        packages: Seq<PackageView>,
        excludes: Seq<Seq<char>>,
    ) -> AppStateView {
        AppStateView {
            packages: items_for(packages, excludes),
            cursor_position: 0,
            loading_state: LoadingStateView::Ready,
            reverse_deps_cache: Map::empty(),
            ..self
        }
    }

    /// The state after a message of the scan worker. Progress changes the
    /// status line only; a warning joins the warnings; the result of the
    /// scan, when empty, says that there is nothing to update and otherwise
    /// replaces the list.
    pub open spec fn after_message(
        self,
        message: ScanMessageView,
        excludes: Seq<Seq<char>>,
    ) -> AppStateView {
        match message {
            ScanMessageView::Progress(line) => AppStateView { loading_message: line, ..self },
            ScanMessageView::ScanWarning(warning) => AppStateView {
                scan_warnings: self.scan_warnings.push(warning),
                ..self
            },
            ScanMessageView::Complete(packages) => {
                if packages.len() == 0 {
                    AppStateView { loading_state: LoadingStateView::NoUpdates, ..self }
                } else {
                    self.with_packages(packages, excludes)
                }
            },
        }
    }

    /// Some warning says that the official repositories could not be
    /// scanned.
    pub open spec fn official_scan_failed(self) -> bool {
        exists|i: int|
            0 <= i < self.scan_warnings.len() && contains_text(
                #[trigger] self.scan_warnings[i],
                OFFICIAL_SCAN_FAILURE_MARKER@,
            )
    }

    /// The scan is over, with or without updates.
    pub open spec fn is_ready(self) -> bool {
        self.loading_state is Ready || self.loading_state is NoUpdates
    }

    /// The state and the answer after a lookup of `name` for which the
    /// cache held nothing and the resolver returned `outcome`. Only a
    /// success is kept: after a failure the next lookup asks again.
    pub open spec fn after_fetch(
        self,
        name: Seq<char>,
        outcome: Result<Seq<Seq<char>>, Seq<char>>,
    ) -> (AppStateView, (Seq<Seq<char>>, Option<Seq<char>>)) {
        match outcome {
            Ok(dependents) => (
                AppStateView {
                    reverse_deps_cache: self.reverse_deps_cache.insert(name, dependents),
                    ..self
                },
                (dependents, None),
            ),
            Err(error) => (self, (Seq::empty(), Some(error))),
        }
    }

    /// The state and the answer after a lookup of `name` for which the
    /// resolver, if asked, returns `outcome`: the cached answer when there
    /// is one, else what `after_fetch` says.
    pub open spec fn after_lookup(
        self,
        name: Seq<char>,
        outcome: Result<Seq<Seq<char>>, Seq<char>>,
    ) -> (AppStateView, (Seq<Seq<char>>, Option<Seq<char>>)) {
        if self.reverse_deps_cache.contains_key(name) {
            (self, (self.reverse_deps_cache[name], None))
        } else {
            self.after_fetch(name, outcome)
        }
    }
}

/// The view of what a resolver returned.
pub open spec fn fetch_view(outcome: Result<Vec<String>, String>) -> Result<
    Seq<Seq<char>>,
    Seq<char>,
> {
    match outcome {
        Ok(dependents) => Ok(dependents.deep_view()),
        Err(error) => Err(error@),
    }
}

/// The view of an answer about the dependents of a package.
pub open spec fn answer_view(answer: (Vec<String>, Option<String>)) -> (
    Seq<Seq<char>>,
    Option<Seq<char>>,
) {
    (
        answer.0.deep_view(),
        match answer.1 {
            Some(error) => Some(error@),
            None => None,
        },
    )
}

impl AppState {
    /// Creates a new `AppState` in loading state.
    pub fn new_loading() -> (state: Self)
        ensures
            state@ == loading(),
            state@.wf(),
    {
        let state = AppState {
            packages: Vec::new(),
            cursor_position: 0,
            show_help: false,
            loading_state: LoadingState::Scanning,
            loading_message: "Initializing...".to_string(),
            scan_warnings: Vec::new(),
            dependency_conflicts: Vec::new(),
            show_dependency_warning: false,
            pending_action: None,
            reverse_deps_cache: StringHashMap::new(),
        };
        assert(state.packages.deep_view() =~= Seq::empty());
        assert(state.scan_warnings.deep_view() =~= Seq::empty());
        assert(state.dependency_conflicts.deep_view() =~= Seq::empty());
        assert(state.reverse_deps_cache@.map_values(names_view()) =~= Map::empty());
        state
    }

    /// Creates a new `AppState` with the given packages and permanent
    /// exclusions, ready for choosing.
    pub fn new(packages: Vec<Package>, permanent_excludes: &[String]) -> (state: Self)
        ensures
            state@ == ready_with(
                items_for(packages.deep_view(), permanent_excludes.deep_view()),
            ),
            state@.wf(),
    {
        let items = create_package_items(packages, permanent_excludes);
        let state = AppState {
            packages: items,
            cursor_position: 0,
            show_help: false,
            loading_state: LoadingState::Ready,
            loading_message: String::new(),
            scan_warnings: Vec::new(),
            dependency_conflicts: Vec::new(),
            show_dependency_warning: false,
            pending_action: None,
            reverse_deps_cache: StringHashMap::new(),
        };
        assert(state.scan_warnings.deep_view() =~= Seq::empty());
        assert(state.dependency_conflicts.deep_view() =~= Seq::empty());
        assert(state.reverse_deps_cache@.map_values(names_view()) =~= Map::empty());
        state
    }

    /// Replaces the status line.
    pub fn set_loading_message(&mut self, message: String)
        ensures
            final(self)@ == (AppStateView { loading_message: message@, ..old(self)@ }),
    {
        self.loading_message = message;
    }

    /// Adds a warning to those of the scan.
    pub fn add_scan_warning(&mut self, warning: String)
        ensures
            final(self)@ == (AppStateView {
                scan_warnings: old(self)@.scan_warnings.push(warning@),
                ..old(self)@
            }),
    {
        self.scan_warnings.push(warning);
        assert(self.scan_warnings.deep_view() =~= old(self)@.scan_warnings.push(warning@));
    }

    /// Shows `packages` for choosing: the list is replaced, the cursor goes
    /// back to the first item and the cache is emptied.
    pub fn set_packages(&mut self, packages: Vec<Package>, permanent_excludes: &[String])
        ensures
            final(self)@ == old(self)@.with_packages(
                packages.deep_view(),
                permanent_excludes.deep_view(),
            ),
            flags_consistent(final(self)@.packages),
            final(self)@.cursor_in_bounds(),
    {
        self.packages = create_package_items(packages, permanent_excludes);
        self.cursor_position = 0;
        self.loading_state = LoadingState::Ready;
        self.reverse_deps_cache.clear();
        assert(self.reverse_deps_cache@.map_values(names_view()) =~= Map::empty());
    }

    /// Says that the scan found nothing to update.
    pub fn set_no_updates(&mut self)
        ensures
            final(self)@ == (AppStateView {
                loading_state: LoadingStateView::NoUpdates,
                ..old(self)@
            }),
    {
        self.loading_state = LoadingState::NoUpdates;
    }

    /// Says that the scan failed as a whole.
    pub fn set_error(&mut self, error: String)
        ensures
            final(self)@ == (AppStateView {
                loading_state: LoadingStateView::Error(error@),
                ..old(self)@
            }),
    {
        self.loading_state = LoadingState::Error(error);
    }

    /// Takes a message of the scan worker. `permanent_excludes` names the
    /// packages that the settings exclude for good.
    pub fn apply_scan_message(&mut self, message: ScanMessage, permanent_excludes: &[String])
        ensures
            final(self)@ == old(self)@.after_message(message@, permanent_excludes.deep_view()),
            old(self)@.wf() ==> final(self)@.wf(),
    {
        match message {
            ScanMessage::Progress(line) => {
                self.set_loading_message(line);
            },
            ScanMessage::ScanWarning(warning) => {
                self.add_scan_warning(warning);
            },
            ScanMessage::Complete(packages) => {
                if packages.len() == 0 {
                    self.set_no_updates();
                } else {
                    self.set_packages(packages, permanent_excludes);
                }
            },
        }
    }

    /// Moves the cursor one row up, unless it is on the first row.
    pub fn move_cursor_up(&mut self)
        ensures
            final(self)@ == old(self)@.moved_up(),
    {
        if self.cursor_position > 0 {
            self.cursor_position -= 1;
        }
    }

    /// Moves the cursor one row down, unless it is on the last row.
    pub fn move_cursor_down(&mut self)
        ensures
            final(self)@ == old(self)@.moved_down(),
    {
        if self.packages.len() > 0 && self.cursor_position < self.packages.len() - 1 {
            self.cursor_position += 1;
        }
    }

    /// Toggles the temporary exclusion of the item under the cursor, unless
    /// that item is excluded for good.
    pub fn toggle_current_package(&mut self)
        ensures
            final(self)@ == old(self)@.with_temporary_toggled(),
            flags_consistent(old(self)@.packages) ==> flags_consistent(final(self)@.packages),
    {
        let i = self.cursor_position;
        if i < self.packages.len() && !self.packages[i].is_permanently_ignored {
            let flipped = !self.packages[i].is_temporarily_ignored;
            self.packages[i].is_temporarily_ignored = flipped;
            self.reverse_deps_cache.clear();
            assert(self.packages.deep_view() =~= old(self)@.packages.update(
                i as int,
                flip_temporary(old(self)@.packages[i as int]),
            ));
            assert(self.reverse_deps_cache@.map_values(names_view()) =~= Map::empty());
        }
    }

    /// Toggles the permanent exclusion of the item under the cursor. An
    /// item that becomes excluded for good loses its temporary exclusion.
    pub fn toggle_permanent_ignore(&mut self)
        ensures
            final(self)@ == old(self)@.with_permanent_toggled(),
            flags_consistent(old(self)@.packages) ==> flags_consistent(final(self)@.packages),
    {
        let i = self.cursor_position;
        if i < self.packages.len() {
            let flipped = !self.packages[i].is_permanently_ignored;
            self.packages[i].is_permanently_ignored = flipped;
            if flipped {
                self.packages[i].is_temporarily_ignored = false;
            }
            self.reverse_deps_cache.clear();
            assert(self.packages.deep_view() =~= old(self)@.packages.update(
                i as int,
                flip_permanent(old(self)@.packages[i as int]),
            ));
            assert(self.reverse_deps_cache@.map_values(names_view()) =~= Map::empty());
        }
    }

    /// Shows or hides the help.
    pub fn toggle_help(&mut self)
        ensures
            final(self)@ == (AppStateView { show_help: !old(self)@.show_help, ..old(self)@ }),
    {
        self.show_help = !self.show_help;
    }

    /// Returns a list of all ignored package names (temporary + permanent).
    pub fn get_ignored_packages(&self) -> (r: Vec<String>)
        ensures
            r.deep_view() == ignore_list(self@.packages),
    {
        let items = self.packages.as_slice();
        assert(items.deep_view() =~= self.packages.deep_view());
        build_ignore_list(items)
    }

    /// Returns a list of permanently ignored package names.
    pub fn get_permanent_excludes(&self) -> (r: Vec<String>)
        ensures
            r.deep_view() == permanent_list(self@.packages),
    {
        let items = self.packages.as_slice();
        assert(items.deep_view() =~= self.packages.deep_view());
        extract_permanent(items)
    }

    /// Returns package statistics: (official count, AUR count, ignored
    /// count).
    pub fn stats(&self) -> (r: (usize, usize, usize))
        ensures
            r.0 == self@.packages.filter(official()).len(),
            r.1 == self@.packages.filter(aur()).len(),
            r.2 == self@.packages.filter(ignored()).len(),
            r.0 + r.1 == self@.packages.len(),
    {
        let items = self.packages.as_slice();
        assert(items.deep_view() =~= self.packages.deep_view());
        calculate_stats(items)
    }

    /// Returns true if official scan has failed.
    pub fn has_official_scan_failed(&self) -> (r: bool)
        ensures
            r == self@.official_scan_failed(),
    {
        let mut i: usize = 0;
        while i < self.scan_warnings.len()
            invariant
                i <= self.scan_warnings.len(),
                forall|k: int|
                    0 <= k < i ==> !contains_text(
                        #[trigger] self@.scan_warnings[k],
                        OFFICIAL_SCAN_FAILURE_MARKER@,
                    ),
            decreases self.scan_warnings.len() - i,
        {
            if str_contains(self.scan_warnings[i].as_str(), OFFICIAL_SCAN_FAILURE_MARKER) {
                assert(self@.scan_warnings[i as int] == self.scan_warnings[i as int]@);
                return true;
            }
            assert(self@.scan_warnings[i as int] == self.scan_warnings[i as int]@);
            i += 1;
        }
        false
    }

    /// Returns true once the scan is over, with or without updates.
    pub fn is_ready(&self) -> (r: bool)
        ensures
            r == self@.is_ready(),
    {
        match self.loading_state {
            LoadingState::Ready => true,
            LoadingState::NoUpdates => true,
            _ => false,
        }
    }

    /// Toggles dependency warning modal visibility.
    pub fn toggle_dependency_warning(&mut self)
        ensures
            final(self)@ == (AppStateView {
                show_dependency_warning: !old(self)@.show_dependency_warning,
                ..old(self)@
            }),
    {
        self.show_dependency_warning = !self.show_dependency_warning;
    }

    /// Sets dependency conflicts and shows the warning modal if there are
    /// any.
    pub fn set_dependency_conflicts(&mut self, conflicts: Vec<DependencyConflict>)
        ensures
            final(self)@ == (AppStateView {
                dependency_conflicts: conflicts.deep_view(),
                show_dependency_warning: old(self)@.show_dependency_warning || conflicts.len()
                    > 0,
                ..old(self)@
            }),
    {
        self.dependency_conflicts = conflicts;
        if self.dependency_conflicts.len() > 0 {
            self.show_dependency_warning = true;
        }
    }

    /// Checks if there are any dependency conflicts.
    pub fn has_conflicts(&self) -> (r: bool)
        ensures
            r == (self@.dependency_conflicts.len() > 0),
    {
        self.dependency_conflicts.len() > 0
    }

    /// What the cache holds for `pkg`.
    pub fn cached_required_by(&self, pkg: &str) -> (r: Option<Vec<String>>)
        ensures
            match r {
                Some(dependents) => self@.reverse_deps_cache.contains_key(pkg@)
                    && dependents.deep_view() == self@.reverse_deps_cache[pkg@],
                None => !self@.reverse_deps_cache.contains_key(pkg@),
            },
    {
        match self.reverse_deps_cache.get(pkg) {
            Some(dependents) => {
                let r = clone_names(dependents);
                assert(r.deep_view() =~= dependents.deep_view());
                Some(r)
            },
            None => None,
        }
    }

    /// Takes what the resolver returned for `pkg` after the cache held
    /// nothing for it: a success is kept and returned, a failure is
    /// returned as an empty list with the error and leaves no trace.
    pub fn record_fetch(&mut self, pkg: &str, outcome: Result<Vec<String>, String>) -> (r: (
        Vec<String>,
        Option<String>,
    ))
        ensures
            (final(self)@, answer_view(r)) == old(self)@.after_fetch(pkg@, fetch_view(outcome)),
    {
        match outcome {
            Ok(dependents) => {
                let kept = clone_names(&dependents);
                assert(kept.deep_view() =~= dependents.deep_view());
                self.reverse_deps_cache.insert(pkg.to_string(), kept);
                assert(self.reverse_deps_cache@.map_values(names_view()) =~= old(
                    self,
                )@.reverse_deps_cache.insert(pkg@, dependents.deep_view()));
                (dependents, None)
            },
            Err(error) => {
                let empty: Vec<String> = Vec::new();
                assert(empty.deep_view() =~= Seq::<Seq<char>>::empty());
                (empty, Some(error))
            },
        }
    }

    /// Gets or fetches reverse dependencies for a package (with caching).
    ///
    /// Returns (dependencies, optional error message). When the cache holds
    /// an answer for `pkg`, that answer is returned and `fetch` is not
    /// called: nothing is asked of `fetch` in that case. Otherwise `fetch`
    /// is called once and its result is taken as `record_fetch` takes it.
    pub fn get_or_fetch_required_by<F>(&mut self, pkg: &str, fetch: F) -> (r: (
        Vec<String>,
        Option<String>,
    )) where F: FnOnce() -> Result<Vec<String>, String>
        requires
            !old(self)@.reverse_deps_cache.contains_key(pkg@) ==> call_requires(fetch, ()),
        ensures
            old(self)@.reverse_deps_cache.contains_key(pkg@) ==> final(self)@ == old(self)@
                && answer_view(r) == (old(self)@.reverse_deps_cache[pkg@], None::<Seq<char>>),
            exists|outcome: Result<Vec<String>, String>|
                (old(self)@.reverse_deps_cache.contains_key(pkg@) || call_ensures(
                    fetch,
                    (),
                    outcome,
                )) && (final(self)@, answer_view(r)) == old(self)@.after_lookup(
                    pkg@,
                    fetch_view(outcome),
                ),
    {
        match self.cached_required_by(pkg) {
            Some(dependents) => {
                let r = (dependents, None);
                proof {
                    let unasked: Result<Vec<String>, String> = arbitrary();
                    assert((self@, answer_view(r)) == old(self)@.after_lookup(
                        pkg@,
                        fetch_view(unasked),
                    ));
                }
                r
            },
            None => {
                let outcome = fetch();
                let ghost returned = outcome;
                let r = self.record_fetch(pkg, outcome);
                assert(call_ensures(fetch, (), returned) && (self@, answer_view(r)) == old(
                    self,
                )@.after_lookup(pkg@, fetch_view(returned)));
                r
            },
        }
    }
}

/// The end of a scan decides the state: an empty result always says that
/// there is nothing to update, and any other result always shows the list,
/// with the cursor on its first item and an empty cache.
pub proof fn lemma_complete_decides_state(
    state: AppStateView,
    packages: Seq<PackageView>,
    excludes: Seq<Seq<char>>,
)
    ensures
        ({
            let next = state.after_message(ScanMessageView::Complete(packages), excludes);
            &&& packages.len() == 0 ==> next.loading_state is NoUpdates
            &&& packages.len() > 0 ==> next.loading_state is Ready && next.cursor_position == 0
                && next.packages == items_for(packages, excludes)
                && next.reverse_deps_cache == Map::<Seq<char>, Seq<Seq<char>>>::empty()
                && next.wf()
            &&& next.scan_warnings == state.scan_warnings
        }),
{
}

/// Progress and warnings leave the scan state alone: progress replaces the
/// status line, and a warning is added after the warnings there are.
pub proof fn lemma_progress_and_warnings_keep_state(
    state: AppStateView,
    text: Seq<char>,
    excludes: Seq<Seq<char>>,
)
    ensures
        ({
            let next = state.after_message(ScanMessageView::Progress(text), excludes);
            next == (AppStateView { loading_message: text, ..state })
        }),
        ({
            let next = state.after_message(ScanMessageView::ScanWarning(text), excludes);
            &&& next.loading_state == state.loading_state
            &&& next.packages == state.packages
            &&& next.scan_warnings.len() == state.scan_warnings.len() + 1
            &&& next.scan_warnings.take(state.scan_warnings.len() as int) == state.scan_warnings
            &&& next.scan_warnings.last() == text
        }),
{
    let next = state.after_message(ScanMessageView::ScanWarning(text), excludes);
    assert(next.scan_warnings.take(state.scan_warnings.len() as int) =~= state.scan_warnings);
}

/// The warning of the scan worker tells the session whether the official
/// scan failed: after it, the session offers a reload if the warning names
/// the official repositories, or if an earlier warning did.
pub proof fn lemma_warning_marks_official_failure(
    state: AppStateView,
    official_failed: bool,
    aur_failed: bool,
    excludes: Seq<Seq<char>>,
)
    requires
        official_failed || aur_failed,
    ensures
        state.after_message(
            ScanMessageView::ScanWarning(warning_text(official_failed, aur_failed)),
            excludes,
        ).official_scan_failed() == (state.official_scan_failed() || official_failed),
{
    let warning = warning_text(official_failed, aur_failed);
    let next = state.after_message(ScanMessageView::ScanWarning(warning), excludes);
    lemma_warning_names_failed_sources(official_failed, aur_failed);
    let n = state.scan_warnings.len() as int;
    assert(next.scan_warnings[n] == warning);
    if state.official_scan_failed() {
        let i = choose|i: int|
            0 <= i < state.scan_warnings.len() && contains_text(
                #[trigger] state.scan_warnings[i],
                OFFICIAL_SCAN_FAILURE_MARKER@,
            );
        assert(next.scan_warnings[i] == state.scan_warnings[i]);
    }
    if next.official_scan_failed() {
        let i = choose|i: int|
            0 <= i < next.scan_warnings.len() && contains_text(
                #[trigger] next.scan_warnings[i],
                OFFICIAL_SCAN_FAILURE_MARKER@,
            );
        if i < n {
            assert(next.scan_warnings[i] == state.scan_warnings[i]);
        }
    }
}

/// A toggle never leaves an item excluded both ways.
pub proof fn lemma_toggles_keep_flags_consistent(state: AppStateView)
    requires
        flags_consistent(state.packages),
    ensures
        flags_consistent(state.with_temporary_toggled().packages),
        flags_consistent(state.with_permanent_toggled().packages),
{
}

/// A list operation on the session: a move of the cursor or a toggle.
pub enum ListOperation {
    MoveUp,
    MoveDown,
    ToggleTemporary,
    TogglePermanent,
}

impl AppStateView {
    /// The state after one list operation.
    pub open spec fn after_operation(self, operation: ListOperation) -> AppStateView {
        match operation {
            ListOperation::MoveUp => self.moved_up(),
            ListOperation::MoveDown => self.moved_down(),
            ListOperation::ToggleTemporary => self.with_temporary_toggled(),
            ListOperation::TogglePermanent => self.with_permanent_toggled(),
        }
    }

    /// The state after a run of list operations.
    pub open spec fn after_operations(self, operations: Seq<ListOperation>) -> AppStateView
        decreases operations.len(),
    {
        if operations.len() == 0 {
            self
        } else {
            self.after_operation(operations[0]).after_operations(operations.drop_first())
        }
    }
}

/// After any run of toggles and moves no item is excluded both ways, and
/// the cursor is still on the list.
pub proof fn lemma_operations_keep_state_well_formed(
    state: AppStateView,
    operations: Seq<ListOperation>,
)
    requires
        state.wf(),
    ensures
        state.after_operations(operations).wf(),
    decreases operations.len(),
{
    if operations.len() > 0 {
        let next = state.after_operation(operations[0]);
        assert(next.wf());
        lemma_operations_keep_state_well_formed(next, operations.drop_first());
    }
}

/// The cache is idempotent: once a lookup of `name` has succeeded, every
/// later lookup of `name` finds the answer in the cache, so the resolver is
/// not asked again: whatever the resolver would return, the answer is
/// the one of the first lookup, and the state does not change.
pub proof fn lemma_cache_is_idempotent(
    state: AppStateView,
    name: Seq<char>,
    dependents: Seq<Seq<char>>,
    later: Result<Seq<Seq<char>>, Seq<char>>,
)
    requires
        !state.reverse_deps_cache.contains_key(name),
    ensures
        ({
            let (first, answer) = state.after_lookup(name, Ok(dependents));
            &&& answer == (dependents, None::<Seq<char>>)
            &&& first.reverse_deps_cache.contains_key(name)
            &&& first.after_lookup(name, later) == (first, (dependents, None::<Seq<char>>))
        }),
{
}

/// A failure does not poison the cache: a lookup that failed leaves the
/// state as it was, so the next lookup of the name asks the resolver again
/// and takes what it returns then.
pub proof fn lemma_failed_fetch_is_not_cached(
    state: AppStateView,
    name: Seq<char>,
    error: Seq<char>,
    later: Result<Seq<Seq<char>>, Seq<char>>,
)
    requires
        !state.reverse_deps_cache.contains_key(name),
    ensures
        ({
            let (first, answer) = state.after_lookup(name, Err(error));
            &&& answer == (Seq::<Seq<char>>::empty(), Some(error))
            &&& first == state
            &&& !first.reverse_deps_cache.contains_key(name)
            &&& first.after_lookup(name, later) == state.after_fetch(name, later)
        }),
{
}

} // verus!
