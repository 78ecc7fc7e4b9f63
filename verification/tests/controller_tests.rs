use par_tui::logic::dependency::DependencyConflict;
use par_tui::models::package::{Package, PackageRepository};
use par_tui::ui::app::{AppState, LoadingState, UIEvent};
use par_tui::ui::controller::{
    handle_dependency_warning_modal, handle_key_event, KeyCode, ModalResult,
};

fn package(name: &str) -> Package {
    Package {
        name: name.to_string(),
        current_version: None,
        new_version: "2".to_string(),
        repository: PackageRepository::Official,
    }
}

fn ready() -> AppState {
    AppState::new(vec![package("a"), package("b"), package("c")], &[])
}

fn in_warning(pending: Option<UIEvent>) -> AppState {
    let mut state = ready();
    state.pending_action = pending;
    state.set_dependency_conflicts(vec![DependencyConflict {
        ignored_package: "glibc".to_string(),
        required_by: vec!["a".to_string()],
    }]);
    state
}

/// What a test looks at of a state.
fn snapshot(state: &AppState) -> (Vec<(bool, bool)>, usize, bool, LoadingState, bool, Option<UIEvent>) {
    (
        state
            .packages
            .iter()
            .map(|i| (i.is_temporarily_ignored, i.is_permanently_ignored))
            .collect(),
        state.cursor_position,
        state.show_help,
        state.loading_state.clone(),
        state.show_dependency_warning,
        state.pending_action,
    )
}

#[test]
fn quit_ends_the_interaction_in_every_state() {
    let states = [
        LoadingState::Scanning,
        LoadingState::Ready,
        LoadingState::NoUpdates,
        LoadingState::Error("x".to_string()),
    ];
    for loading_state in states {
        let mut state = ready();
        state.loading_state = loading_state;
        let before = snapshot(&state);

        assert_eq!(handle_key_event(&mut state, KeyCode::Char('q')), Some(UIEvent::Quit));
        assert_eq!(snapshot(&state), before);
    }
    let mut state = in_warning(Some(UIEvent::UpdateEntireSystem));
    assert_eq!(handle_key_event(&mut state, KeyCode::Char('q')), Some(UIEvent::Quit));
    assert_eq!(state.pending_action, None);
}

#[test]
fn list_keys_count_only_while_the_list_is_shown() {
    let keys = [
        KeyCode::Char('?'),
        KeyCode::Char('j'),
        KeyCode::Down,
        KeyCode::Char('k'),
        KeyCode::Up,
        KeyCode::Char('p'),
        KeyCode::Char(' '),
        KeyCode::Char('o'),
        KeyCode::Enter,
        KeyCode::Esc,
        KeyCode::Other,
        KeyCode::Char('r'),
    ];
    let others = [
        LoadingState::Scanning,
        LoadingState::NoUpdates,
        LoadingState::Error("x".to_string()),
    ];
    for loading_state in others {
        for key in keys {
            let mut state = ready();
            state.move_cursor_down();
            state.loading_state = loading_state.clone();
            let before = snapshot(&state);

            assert_eq!(handle_key_event(&mut state, key), None);
            assert_eq!(snapshot(&state), before);
        }
    }
}

#[test]
fn keys_move_the_cursor_within_the_list() {
    let mut state = ready();

    assert_eq!(handle_key_event(&mut state, KeyCode::Up), None);
    assert_eq!(state.cursor_position, 0);
    assert_eq!(handle_key_event(&mut state, KeyCode::Char('j')), None);
    assert_eq!(handle_key_event(&mut state, KeyCode::Down), None);
    assert_eq!(state.cursor_position, 2);
    assert_eq!(handle_key_event(&mut state, KeyCode::Down), None);
    assert_eq!(state.cursor_position, 2);
    assert_eq!(handle_key_event(&mut state, KeyCode::Char('k')), None);
    assert_eq!(state.cursor_position, 1);
}

#[test]
fn keys_toggle_the_item_under_the_cursor() {
    let mut state = ready();
    handle_key_event(&mut state, KeyCode::Down);

    assert_eq!(handle_key_event(&mut state, KeyCode::Char(' ')), None);
    assert_eq!(
        snapshot(&state).0,
        vec![(false, false), (true, false), (false, false)]
    );
    assert_eq!(handle_key_event(&mut state, KeyCode::Char('p')), None);
    assert_eq!(
        snapshot(&state).0,
        vec![(false, false), (false, true), (false, false)]
    );
    assert_eq!(handle_key_event(&mut state, KeyCode::Char(' ')), None);
    assert_eq!(
        snapshot(&state).0,
        vec![(false, false), (false, true), (false, false)]
    );
    assert_eq!(handle_key_event(&mut state, KeyCode::Char('?')), None);
    assert!(state.show_help);
    assert_eq!(handle_key_event(&mut state, KeyCode::Char('?')), None);
    assert!(!state.show_help);
}

#[test]
fn committing_records_the_pending_update() {
    let mut entire = ready();
    assert_eq!(
        handle_key_event(&mut entire, KeyCode::Enter),
        Some(UIEvent::UpdateEntireSystem)
    );
    assert_eq!(entire.pending_action, Some(UIEvent::UpdateEntireSystem));

    let mut official = ready();
    assert_eq!(
        handle_key_event(&mut official, KeyCode::Char('o')),
        Some(UIEvent::UpdateOfficialOnly)
    );
    assert_eq!(official.pending_action, Some(UIEvent::UpdateOfficialOnly));
}

#[test]
fn reload_needs_a_failed_official_scan_and_a_finished_scan() {
    let mut fine = ready();
    fine.add_scan_warning("AUR scan failed".to_string());
    assert_eq!(handle_key_event(&mut fine, KeyCode::Char('r')), None);
    assert_eq!(fine.loading_state, LoadingState::Ready);

    let mut scanning = ready();
    scanning.add_scan_warning("Official scan failed".to_string());
    scanning.loading_state = LoadingState::Scanning;
    assert_eq!(handle_key_event(&mut scanning, KeyCode::Char('r')), None);

    let mut failed = ready();
    failed.loading_state = LoadingState::Error("x".to_string());
    failed.add_scan_warning("Official scan failed".to_string());
    assert_eq!(handle_key_event(&mut failed, KeyCode::Char('r')), None);
}

#[test]
fn reload_goes_back_to_scanning_and_keeps_the_session() {
    for loading_state in [LoadingState::Ready, LoadingState::NoUpdates] {
        let mut state = ready();
        state.add_scan_warning("Official & AUR scan failed".to_string());
        state.set_loading_message("Scan complete. Total: 3 updates".to_string());
        state.move_cursor_down();
        state.toggle_current_package();
        state.toggle_help();
        state.pending_action = Some(UIEvent::UpdateOfficialOnly);
        let _ = state.get_or_fetch_required_by("glibc", || Ok(vec!["a".to_string()]));
        state.loading_state = loading_state;
        let before = snapshot(&state);

        assert_eq!(handle_key_event(&mut state, KeyCode::Char('r')), Some(UIEvent::Reload));

        assert_eq!(state.loading_state, LoadingState::Scanning);
        assert_eq!(snapshot(&state).0, before.0);
        assert_eq!(
            snapshot(&state).0,
            vec![(false, false), (true, false), (false, false)]
        );
        assert_eq!(state.packages.len(), 3);
        assert_eq!(state.packages[1].package.name, "b");
        assert_eq!(state.cursor_position, 1);
        assert!(state.show_help);
        assert!(!state.show_dependency_warning);
        assert_eq!(state.pending_action, Some(UIEvent::UpdateOfficialOnly));
        assert_eq!(state.scan_warnings, vec!["Official & AUR scan failed"]);
        assert!(state.has_official_scan_failed());
        assert_eq!(state.loading_message, "Scan complete. Total: 3 updates");
        assert_eq!(state.cached_required_by("glibc"), Some(vec!["a".to_string()]));

        // The session is scanning again: reload is not offered twice.
        assert_eq!(handle_key_event(&mut state, KeyCode::Char('r')), None);
        assert_eq!(state.loading_state, LoadingState::Scanning);
    }
}

#[test]
fn refused_reload_changes_nothing() {
    let mut state = ready();
    state.add_scan_warning("AUR scan failed".to_string());
    state.move_cursor_down();
    state.toggle_permanent_ignore();
    let before = snapshot(&state);

    assert_eq!(handle_key_event(&mut state, KeyCode::Char('r')), None);

    assert_eq!(snapshot(&state), before);
    assert_eq!(state.scan_warnings, vec!["AUR scan failed"]);
}

#[test]
fn warning_takes_every_key() {
    let keys = [
        KeyCode::Char('?'),
        KeyCode::Char('j'),
        KeyCode::Down,
        KeyCode::Up,
        KeyCode::Char('p'),
        KeyCode::Char(' '),
        KeyCode::Char('o'),
        KeyCode::Enter,
        KeyCode::Char('r'),
        KeyCode::Other,
        KeyCode::Char('Y'),
    ];
    for key in keys {
        let mut state = in_warning(Some(UIEvent::UpdateOfficialOnly));
        state.add_scan_warning("Official scan failed".to_string());
        let before = snapshot(&state);

        assert_eq!(handle_key_event(&mut state, key), None);
        assert_eq!(snapshot(&state), before);
    }
}

#[test]
fn accepting_hands_the_pending_update_on_once() {
    let mut state = in_warning(Some(UIEvent::UpdateOfficialOnly));

    assert_eq!(
        handle_key_event(&mut state, KeyCode::Char('y')),
        Some(UIEvent::UpdateOfficialOnly)
    );
    assert!(!state.show_dependency_warning);
    assert_eq!(state.pending_action, None);
    assert_eq!(state.dependency_conflicts.len(), 1);

    // The warning is closed: `y` is a key like any other now.
    assert_eq!(handle_key_event(&mut state, KeyCode::Char('y')), None);
}

#[test]
fn accepting_without_a_pending_update_proceeds_with_nothing() {
    let mut state = in_warning(None);

    assert_eq!(
        handle_dependency_warning_modal(&mut state, KeyCode::Char('y')),
        ModalResult::Proceed(None)
    );
    assert!(!state.show_dependency_warning);
}

#[test]
fn declining_drops_the_pending_update_and_returns_to_the_list() {
    for key in [KeyCode::Char('n'), KeyCode::Esc] {
        let mut state = in_warning(Some(UIEvent::UpdateEntireSystem));

        assert_eq!(handle_dependency_warning_modal(&mut state, key), ModalResult::Cancel);
        assert!(!state.show_dependency_warning);
        assert_eq!(state.pending_action, None);

        assert_eq!(handle_key_event(&mut state, KeyCode::Down), None);
        assert_eq!(state.cursor_position, 1);
    }
}

#[test]
fn modal_results_for_the_other_keys() {
    let mut quit = in_warning(Some(UIEvent::UpdateEntireSystem));
    assert_eq!(
        handle_dependency_warning_modal(&mut quit, KeyCode::Char('q')),
        ModalResult::Quit
    );
    assert_eq!(quit.pending_action, None);
    assert!(quit.show_dependency_warning);

    let mut other = in_warning(Some(UIEvent::UpdateEntireSystem));
    assert_eq!(
        handle_dependency_warning_modal(&mut other, KeyCode::Enter),
        ModalResult::IgnoreKey
    );
    assert_eq!(other.pending_action, Some(UIEvent::UpdateEntireSystem));
    assert!(other.show_dependency_warning);
}

#[test]
fn closing_the_warning_hides_it_even_when_it_was_hidden() {
    let mut state = ready();
    state.pending_action = Some(UIEvent::UpdateEntireSystem);

    assert_eq!(
        handle_dependency_warning_modal(&mut state, KeyCode::Char('n')),
        ModalResult::Cancel
    );
    assert!(!state.show_dependency_warning);
}
