use par_tui::logic::dependency::DependencyConflict;
use par_tui::logic::planner::UpdateMode;
use par_tui::models::config::Config;
use par_tui::models::package::{Package, PackageRepository};
use par_tui::session::{
    all_packages, config_to_save, confirmation_after_key, confirmation_outcome, next_step,
    plan_update, review_dependency_check, update_mode_for, Confirmation, DependencyReview,
    NextStep,
};
use par_tui::ui::app::{AppState, LoadingState, UIEvent};

fn package(name: &str, repository: PackageRepository) -> Package {
    Package {
        name: name.to_string(),
        current_version: Some("1".to_string()),
        new_version: "2".to_string(),
        repository,
    }
}

fn names(list: &[&str]) -> Vec<String> {
    list.iter().map(|s| s.to_string()).collect()
}

fn session(excludes: &[&str]) -> AppState {
    AppState::new(
        vec![
            package("c", PackageRepository::Official),
            package("a", PackageRepository::Aur),
            package("b", PackageRepository::Official),
        ],
        &names(excludes),
    )
}

#[test]
fn clean_check_lets_the_update_proceed() {
    let mut state = session(&[]);
    state.pending_action = Some(UIEvent::UpdateEntireSystem);

    let review = review_dependency_check(&mut state, Ok(Vec::new()));

    assert!(matches!(review, DependencyReview::Proceed));
    assert!(!state.show_dependency_warning);
    assert!(state.dependency_conflicts.is_empty());
    assert_eq!(state.pending_action, Some(UIEvent::UpdateEntireSystem));
}

#[test]
fn conflicts_are_shown_for_confirmation() {
    let mut state = session(&[]);
    state.pending_action = Some(UIEvent::UpdateOfficialOnly);
    let conflict = DependencyConflict {
        ignored_package: "glibc".to_string(),
        required_by: names(&["a", "b"]),
    };

    let review = review_dependency_check(&mut state, Ok(vec![conflict.clone()]));

    assert!(matches!(review, DependencyReview::AwaitConfirmation));
    assert!(state.show_dependency_warning);
    assert_eq!(state.dependency_conflicts, vec![conflict]);
    assert_eq!(state.pending_action, Some(UIEvent::UpdateOfficialOnly));
}

#[test]
fn failed_check_blocks_the_update_and_hands_the_warnings_on() {
    let mut state = session(&[]);
    state.pending_action = Some(UIEvent::UpdateEntireSystem);

    let review = review_dependency_check(&mut state, Err(names(&["first", "second"])));

    match review {
        DependencyReview::Blocked(warnings) => assert_eq!(warnings, names(&["first", "second"])),
        _ => panic!("a failed check must block"),
    }
    assert!(!state.show_dependency_warning);
    assert!(state.dependency_conflicts.is_empty());
    assert_eq!(state.pending_action, None);
}

#[test]
fn closing_events_are_read_as_answers() {
    assert_eq!(
        confirmation_outcome(Some(UIEvent::UpdateEntireSystem)),
        Confirmation::Confirmed
    );
    assert_eq!(
        confirmation_outcome(Some(UIEvent::UpdateOfficialOnly)),
        Confirmation::Confirmed
    );
    assert_eq!(confirmation_outcome(Some(UIEvent::Quit)), Confirmation::Interrupted);
    assert_eq!(confirmation_outcome(Some(UIEvent::Reload)), Confirmation::Declined);
    assert_eq!(confirmation_outcome(None), Confirmation::Declined);
}

#[test]
fn only_update_events_have_a_mode() {
    assert_eq!(update_mode_for(UIEvent::UpdateEntireSystem), Some(UpdateMode::EntireSystem));
    assert_eq!(update_mode_for(UIEvent::UpdateOfficialOnly), Some(UpdateMode::OfficialOnly));
    assert_eq!(update_mode_for(UIEvent::Quit), None);
    assert_eq!(update_mode_for(UIEvent::Reload), None);
}

#[test]
fn unchanged_exclusions_are_not_saved() {
    let mut config = Config::default();
    config.exclude.permanent = names(&["c", "b"]);
    let state = session(&["c", "b"]);

    assert!(config_to_save(&config, &state).is_none());
}

#[test]
fn changed_exclusions_are_saved_with_the_other_settings() {
    let mut config = Config::default();
    config.exclude.permanent = names(&["b"]);
    config.behavior.warn_stale_system = false;
    config.behavior.extra_args = names(&["--needed"]);
    let mut state = session(&["b"]);
    state.toggle_permanent_ignore();

    let saved = config_to_save(&config, &state).expect("the exclusions changed");

    assert_eq!(saved.exclude.permanent, names(&["c", "b"]));
    assert!(!saved.behavior.warn_stale_system);
    assert_eq!(saved.behavior.extra_args, names(&["--needed"]));
}

#[test]
fn exclusions_in_another_order_count_as_changed() {
    let mut config = Config::default();
    config.exclude.permanent = names(&["b", "c"]);
    let state = session(&["b", "c"]);

    let saved = config_to_save(&config, &state).expect("the order changed");

    assert_eq!(saved.exclude.permanent, names(&["c", "b"]));
}

#[test]
fn reload_scans_again_and_saves_nothing() {
    let config = Config::default();
    let mut state = session(&[]);
    state.toggle_permanent_ignore();

    assert!(matches!(
        next_step(Some(UIEvent::Reload), &state, &config),
        NextStep::Rescan
    ));
}

#[test]
fn ending_events_save_and_update_as_they_ask() {
    let config = Config::default();
    let mut state = session(&[]);
    state.toggle_permanent_ignore();

    match next_step(Some(UIEvent::UpdateOfficialOnly), &state, &config) {
        NextStep::Finish { save: Some(saved), update } => {
            assert_eq!(saved.exclude.permanent, names(&["c"]));
            assert_eq!(update, Some(UpdateMode::OfficialOnly));
        }
        _ => panic!("the session ends and saves"),
    }
    match next_step(Some(UIEvent::Quit), &state, &config) {
        NextStep::Finish { save: Some(_), update: None } => {}
        _ => panic!("quit saves and does not update"),
    }
    match next_step(None, &state, &config) {
        NextStep::Finish { save: None, update: None } => {}
        _ => panic!("without an event nothing is done"),
    }
}

#[test]
fn nothing_is_saved_before_the_scan_is_over() {
    let config = Config::default();
    for (loading_state, saves) in [
        (LoadingState::Scanning, false),
        (LoadingState::Error("x".to_string()), false),
        (LoadingState::NoUpdates, true),
        (LoadingState::Ready, true),
    ] {
        let mut state = session(&[]);
        state.toggle_permanent_ignore();
        state.loading_state = loading_state;

        match next_step(Some(UIEvent::Quit), &state, &config) {
            NextStep::Finish { save, update: None } => assert_eq!(save.is_some(), saves),
            _ => panic!("quit ends the session"),
        }
    }
}

#[test]
fn plan_leaves_ignored_packages_out_and_sorts_their_names() {
    let mut state = session(&["c"]);
    state.move_cursor_down();
    state.toggle_current_package();

    assert_eq!(
        all_packages(&state).iter().map(|p| p.name.as_str()).collect::<Vec<_>>(),
        vec!["c", "a", "b"]
    );

    let plan = plan_update(&state, UpdateMode::EntireSystem);
    assert_eq!(plan.mode, UpdateMode::EntireSystem);
    assert_eq!(plan.packages, vec![package("b", PackageRepository::Official)]);
    assert_eq!(plan.ignore_list, names(&["a", "c"]));

    let mut other = session(&[]);
    other.toggle_current_package();
    let plan = plan_update(&other, UpdateMode::OfficialOnly);
    assert_eq!(plan.packages, vec![package("b", PackageRepository::Official)]);
    assert_eq!(plan.ignore_list, names(&["c"]));
}

#[test]
fn warning_is_answered_by_an_event_or_by_closing_it() {
    let mut state = session(&[]);
    state.show_dependency_warning = true;

    assert_eq!(confirmation_after_key(&state, None), None);
    assert_eq!(
        confirmation_after_key(&state, Some(UIEvent::UpdateEntireSystem)),
        Some(Confirmation::Confirmed)
    );
    assert_eq!(
        confirmation_after_key(&state, Some(UIEvent::Quit)),
        Some(Confirmation::Interrupted)
    );

    state.show_dependency_warning = false;
    assert_eq!(confirmation_after_key(&state, None), Some(Confirmation::Declined));
    assert_eq!(
        confirmation_after_key(&state, Some(UIEvent::UpdateOfficialOnly)),
        Some(Confirmation::Confirmed)
    );
}
