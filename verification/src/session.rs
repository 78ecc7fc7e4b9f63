//! What the caller does once the interaction has ended: whether to scan
//! again, what to save, and whether the update may go ahead.

use crate::logic::dependency::{result_view, ConflictView, DependencyResult};
use crate::logic::filter::{apply_temporary_excludes, ignore_list, kept, permanent_list};
use crate::logic::planner::{create_plan, planned_packages, UpdateMode, UpdatePlan};
use crate::models::config::{Config, ExcludeConfig};
use crate::models::package::{Package, PackageView};
use crate::names::sorted_names;
use crate::text::same_names;
use crate::ui::app::{AppState, AppStateView, UIEvent};
use vstd::prelude::*;

verus! {

/// What a dependency check means for the update that the user asked for.
pub enum DependencyReview {
    /// Nothing stands in the way.
    Proceed,
    /// There are conflicts: they are shown, and the user has to confirm.
    AwaitConfirmation,
    /// The check could not be made; these are the reasons. The update does
    /// not go ahead.
    Blocked(Vec<String>),
}

/// A `DependencyReview` with every text as a sequence of characters.
pub enum DependencyReviewView {
    Proceed,
    AwaitConfirmation,
    Blocked(Seq<Seq<char>>),
}

impl View for DependencyReview {
    type V = DependencyReviewView;

    open spec fn view(&self) -> DependencyReviewView {
        match *self {
            DependencyReview::Proceed => DependencyReviewView::Proceed,
            DependencyReview::AwaitConfirmation => DependencyReviewView::AwaitConfirmation,
            DependencyReview::Blocked(warnings) => DependencyReviewView::Blocked(
                warnings.deep_view(),
            ),
        }
    }
}

impl AppStateView {
    /// The state and the review after a dependency check.
    ///
    /// Without conflicts the update proceeds and the state stays as it is.
    /// Conflicts are stored and the warning is shown. A check that could
    /// not be made counts as a decline: the pending update is dropped, the
    /// warning is not shown, and the reasons are handed to the caller.
    pub open spec fn after_dependency_check(
        self,
        result: Result<Seq<ConflictView>, Seq<Seq<char>>>,
    ) -> (AppStateView, DependencyReviewView) {
        match result {
            Ok(conflicts) => {
                if conflicts.len() == 0 {
                    (self, DependencyReviewView::Proceed)
                } else {
                    (
                        AppStateView {
                            dependency_conflicts: conflicts,
                            show_dependency_warning: true,
                            ..self
                        },
                        DependencyReviewView::AwaitConfirmation,
                    )
                }
            },
            Err(warnings) => (
                AppStateView { pending_action: None, ..self },
                DependencyReviewView::Blocked(warnings),
            ),
        }
    }
}

/// Takes the result of the dependency check for the pending update.
pub fn review_dependency_check(state: &mut AppState, result: DependencyResult) -> (review:
    DependencyReview)
    ensures
        (final(state)@, review@) == old(state)@.after_dependency_check(result_view(result)),
{
    match result {
        Ok(conflicts) => {
            if conflicts.len() == 0 {
                DependencyReview::Proceed
            } else {
                state.set_dependency_conflicts(conflicts);
                DependencyReview::AwaitConfirmation
            }
        },
        Err(warnings) => {
            state.pending_action = None;
            DependencyReview::Blocked(warnings)
        },
    }
}

/// How the user answered the dependency warning.
#[derive(Debug, Clone, Copy, PartialEq, Eq, Structural)]
pub enum Confirmation {
    /// The update goes ahead.
    Confirmed,
    /// The update is dropped; the session may go on.
    Declined,
    /// The user quit.
    Interrupted,
}

/// What the event that closed the dependency warning means: an update
/// confirms, quit interrupts, and anything else declines.
pub open spec fn confirmation_of(event: Option<UIEvent>) -> Confirmation {
    match event {
        Some(UIEvent::UpdateEntireSystem) | Some(UIEvent::UpdateOfficialOnly) => {
            Confirmation::Confirmed
        },
        Some(UIEvent::Quit) => Confirmation::Interrupted,
        _ => Confirmation::Declined,
    }
}

/// Reads the event that closed the dependency warning.
pub fn confirmation_outcome(event: Option<UIEvent>) -> (r: Confirmation)
    ensures
        r == confirmation_of(event),
{
    match event {
        Some(UIEvent::UpdateEntireSystem) => Confirmation::Confirmed,
        Some(UIEvent::UpdateOfficialOnly) => Confirmation::Confirmed,
        Some(UIEvent::Quit) => Confirmation::Interrupted,
        _ => Confirmation::Declined,
    }
}

/// Whether the dependency warning has been answered after a key, and how:
/// an event answers it, and so does a key that closed the warning without
/// an event, which declines.
pub open spec fn answer_after_key(state: AppStateView, event: Option<UIEvent>) -> Option<
    Confirmation,
> {
    match event {
        Some(e) => Some(confirmation_of(Some(e))),
        None => if state.show_dependency_warning {
            None
        } else {
            Some(Confirmation::Declined)
        },
    }
}

/// Reads, after a key in the dependency warning, whether the user has
/// answered. `state` is the state after the key and `event` what the key
/// brought.
pub fn confirmation_after_key(state: &AppState, event: Option<UIEvent>) -> (r: Option<
    Confirmation,
>)
    ensures
        r == answer_after_key(state@, event),
{
    match event {
        Some(e) => Some(confirmation_outcome(Some(e))),
        None => {
            if state.show_dependency_warning {
                None
            } else {
                Some(Confirmation::Declined)
            }
        },
    }
}

/// The kind of update that an event asks for, if it asks for one.
pub open spec fn mode_of(event: UIEvent) -> Option<UpdateMode> {
    match event {
        UIEvent::UpdateEntireSystem => Some(UpdateMode::EntireSystem),
        UIEvent::UpdateOfficialOnly => Some(UpdateMode::OfficialOnly),
        _ => None,
    }
}

/// The kind of update that an event asks for, if it asks for one.
pub fn update_mode_for(event: UIEvent) -> (r: Option<UpdateMode>)
    ensures
        r == mode_of(event),
{
    match event {
        UIEvent::UpdateEntireSystem => Some(UpdateMode::EntireSystem),
        UIEvent::UpdateOfficialOnly => Some(UpdateMode::OfficialOnly),
        _ => None,
    }
}

/// The settings have to be saved: the names excluded for good in the
/// session, in the order of the list, are not the names that the settings
/// hold.
pub open spec fn exclusions_changed(state: AppStateView, permanent: Seq<Seq<char>>) -> bool {
    permanent_list(state.packages) != permanent
}

/// The settings to save after the session, if the permanent exclusions
/// changed: the old settings with the new exclusions.
pub fn config_to_save(config: &Config, state: &AppState) -> (r: Option<Config>)
    ensures
        r is Some <==> exclusions_changed(state@, config.exclude.permanent.deep_view()),
        r matches Some(c) ==> c.exclude.permanent.deep_view() == permanent_list(state@.packages)
            && c.behavior.warn_stale_system == config.behavior.warn_stale_system
            && c.behavior.extra_args@ == config.behavior.extra_args@,
{
    let now = state.get_permanent_excludes();
    let before = &config.exclude.permanent;
    let same = same_names(&now, before);
    if same {
        None
    } else {
        Some(
            Config {
                exclude: ExcludeConfig { permanent: now },
                behavior: config.behavior.clone(),
            },
        )
    }
}

/// What the caller does after the interaction.
pub enum NextStep {
    /// Stop the worker and scan again. Nothing is saved.
    Rescan,
    /// Stop the worker and end the session: save these settings, if any,
    /// and make this update, if any, after the dependency check.
    Finish { save: Option<Config>, update: Option<UpdateMode> },
}

/// Decides what follows the event that ended the interaction.
///
/// A reload scans again and saves nothing. Every other event ends the
/// session; the settings are saved if the scan was over and the permanent
/// exclusions changed, and an update follows if the event asks for one.
/// Without an event the session just ends.
pub fn next_step(event: Option<UIEvent>, state: &AppState, config: &Config) -> (r: NextStep)
    ensures
        event == Some(UIEvent::Reload) <==> r is Rescan,
        r matches NextStep::Finish { save, update } ==> {
            &&& update == match event {
                Some(e) => mode_of(e),
                None => None,
            }
            &&& save is Some <==> event is Some && state@.is_ready() && exclusions_changed(
                state@,
                config.exclude.permanent.deep_view(),
            )
            &&& save matches Some(c) ==> c.exclude.permanent.deep_view() == permanent_list(
                state@.packages,
            ) && c.behavior.warn_stale_system == config.behavior.warn_stale_system
                && c.behavior.extra_args@ == config.behavior.extra_args@
        },
{
    match event {
        Some(UIEvent::Reload) => NextStep::Rescan,
        Some(e) => {
            let save = if state.is_ready() {
                config_to_save(config, state)
            } else {
                None
            };
            NextStep::Finish { save, update: update_mode_for(e) }
        },
        None => NextStep::Finish { save: None, update: None },
    }
}

/// The packages of the session, in the order of the list.
pub open spec fn session_packages(state: AppStateView) -> Seq<PackageView> {
    Seq::new(state.packages.len(), |i: int| state.packages[i].package)
}

/// The packages of the session, in the order of the list.
pub fn all_packages(state: &AppState) -> (r: Vec<Package>)
    ensures
        r.deep_view() == session_packages(state@),
{
    let mut r: Vec<Package> = Vec::new();
    let mut i: usize = 0;
    while i < state.packages.len()
        invariant
            i <= state.packages.len(),
            r.len() == i,
            forall|k: int| 0 <= k < i ==> (#[trigger] r[k])@ == state.packages[k].package@,
        decreases state.packages.len() - i,
    {
        r.push(state.packages[i].package.clone());
        i += 1;
    }
    assert(r.deep_view() =~= session_packages(state@));
    r
}

/// The plan for an update in `mode`: the packages of the session that are
/// not ignored and that the mode covers, and the ignored names in
/// ascending order, each once.
pub fn plan_update(state: &AppState, mode: UpdateMode) -> (plan: UpdatePlan)
    ensures
        plan.mode == mode,
        plan.packages.deep_view() == planned_packages(
            mode,
            session_packages(state@).filter(kept(ignore_list(state@.packages))),
        ),
        plan.ignore_list.deep_view() == sorted_names(ignore_list(state@.packages).to_set()),
{
    let ignored = state.get_ignored_packages();
    let names = ignored.as_slice();
    assert(names.deep_view() =~= ignored.deep_view());
    let packages = apply_temporary_excludes(all_packages(state), names);
    create_plan(mode, packages, ignored)
}

} // verus!
