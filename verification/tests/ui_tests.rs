use par_tui::logic::dependency::DependencyConflict;
use par_tui::models::package::{Package, PackageRepository};
use par_tui::scan::ScanMessage;
use par_tui::ui::app::{AppState, LoadingState, UIEvent};
use par_tui::{AUR_SCAN_FAILURE_MARKER, OFFICIAL_SCAN_FAILURE_MARKER};

fn make_test_package(name: &str, repo: PackageRepository) -> Package {
    Package {
        name: name.to_string(),
        current_version: Some("1.0.0".to_string()),
        new_version: "2.0.0".to_string(),
        repository: repo,
    }
}

#[test]
fn test_app_state_creation() {
    let packages = vec![
        make_test_package("pkg1", PackageRepository::Official),
        make_test_package("pkg2", PackageRepository::Aur),
    ];
    let permanent = vec!["pkg2".to_string()];

    let state = AppState::new(packages, &permanent);

    assert_eq!(state.packages.len(), 2);
    assert_eq!(state.cursor_position, 0);
    assert!(!state.show_help);
    assert!(state.packages[1].is_permanently_ignored);
    assert!(!state.packages[0].is_permanently_ignored);
}

#[test]
fn test_cursor_movement() {
    let packages = vec![
        make_test_package("pkg1", PackageRepository::Official),
        make_test_package("pkg2", PackageRepository::Official),
        make_test_package("pkg3", PackageRepository::Official),
    ];

    let mut state = AppState::new(packages, &[]);

    assert_eq!(state.cursor_position, 0);

    state.move_cursor_down();
    assert_eq!(state.cursor_position, 1);

    state.move_cursor_down();
    assert_eq!(state.cursor_position, 2);

    state.move_cursor_down(); // Should not go beyond
    assert_eq!(state.cursor_position, 2);

    state.move_cursor_up();
    assert_eq!(state.cursor_position, 1);

    state.move_cursor_up();
    assert_eq!(state.cursor_position, 0);

    state.move_cursor_up(); // Should not go below 0
    assert_eq!(state.cursor_position, 0);
}

#[test]
fn test_toggle_package() {
    let packages = vec![
        make_test_package("pkg1", PackageRepository::Official),
        make_test_package("pkg2", PackageRepository::Official),
    ];

    let mut state = AppState::new(packages, &[]);

    assert!(!state.packages[0].is_temporarily_ignored);

    state.toggle_current_package();
    assert!(state.packages[0].is_temporarily_ignored);

    state.toggle_current_package();
    assert!(!state.packages[0].is_temporarily_ignored);
}

#[test]
fn test_cannot_toggle_permanent() {
    let packages = vec![make_test_package("pkg1", PackageRepository::Official)];
    let permanent = vec!["pkg1".to_string()];

    let mut state = AppState::new(packages, &permanent);

    assert!(state.packages[0].is_permanently_ignored);
    assert!(!state.packages[0].is_temporarily_ignored);

    state.toggle_current_package();

    // Should not change temporary flag for permanently ignored
    assert!(!state.packages[0].is_temporarily_ignored);
}

#[test]
fn test_get_ignored_packages() {
    let packages = vec![
        make_test_package("pkg1", PackageRepository::Official),
        make_test_package("pkg2", PackageRepository::Official),
        make_test_package("pkg3", PackageRepository::Official),
    ];
    let permanent = vec!["pkg2".to_string()];

    let mut state = AppState::new(packages, &permanent);
    state.toggle_current_package(); // Toggle pkg1

    let ignored = state.get_ignored_packages();

    assert_eq!(ignored.len(), 2);
    assert!(ignored.contains(&"pkg1".to_string()));
    assert!(ignored.contains(&"pkg2".to_string()));
}

#[test]
fn test_stats() {
    let packages = vec![
        make_test_package("pkg1", PackageRepository::Official),
        make_test_package("pkg2", PackageRepository::Official),
        make_test_package("pkg3", PackageRepository::Aur),
        make_test_package("pkg4", PackageRepository::Aur),
    ];
    let permanent = vec!["pkg2".to_string()];

    let mut state = AppState::new(packages, &permanent);
    state.toggle_current_package(); // Toggle pkg1

    let (official, aur, ignored) = state.stats();

    assert_eq!(official, 2);
    assert_eq!(aur, 2);
    assert_eq!(ignored, 2); // pkg1 (temp) + pkg2 (perm)
}

#[test]
fn test_toggle_help() {
    let packages = vec![make_test_package("pkg1", PackageRepository::Official)];
    let mut state = AppState::new(packages, &[]);

    assert!(!state.show_help);

    state.toggle_help();
    assert!(state.show_help);

    state.toggle_help();
    assert!(!state.show_help);
}

#[test]
fn test_toggle_permanent_ignore() {
    let packages = vec![
        make_test_package("pkg1", PackageRepository::Official),
        make_test_package("pkg2", PackageRepository::Official),
    ];
    let permanent = vec!["pkg2".to_string()];

    let mut state = AppState::new(packages, &permanent);

    // pkg1 starts as not permanently ignored
    assert!(!state.packages[0].is_permanently_ignored);

    // Toggle permanent ignore on pkg1
    state.toggle_permanent_ignore();
    assert!(state.packages[0].is_permanently_ignored);

    // Toggle again to remove permanent ignore
    state.toggle_permanent_ignore();
    assert!(!state.packages[0].is_permanently_ignored);
}

#[test]
fn test_toggle_permanent_clears_temporary() {
    let packages = vec![make_test_package("pkg1", PackageRepository::Official)];
    let mut state = AppState::new(packages, &[]);

    // Set temporary ignore first
    state.toggle_current_package();
    assert!(state.packages[0].is_temporarily_ignored);
    assert!(!state.packages[0].is_permanently_ignored);

    // Toggle permanent ignore should clear temporary
    state.toggle_permanent_ignore();
    assert!(state.packages[0].is_permanently_ignored);
    assert!(!state.packages[0].is_temporarily_ignored);
}

#[test]
fn test_get_permanent_excludes() {
    let packages = vec![
        make_test_package("pkg1", PackageRepository::Official),
        make_test_package("pkg2", PackageRepository::Official),
        make_test_package("pkg3", PackageRepository::Official),
    ];
    let permanent = vec!["pkg2".to_string()];

    let mut state = AppState::new(packages, &permanent);

    // Toggle pkg1 to permanent ignore
    state.toggle_permanent_ignore();

    let permanent_list = state.get_permanent_excludes();

    assert_eq!(permanent_list.len(), 2);
    assert!(permanent_list.contains(&"pkg1".to_string()));
    assert!(permanent_list.contains(&"pkg2".to_string()));
}

#[test]
fn test_has_official_scan_failed_no_warnings() {
    let packages = vec![make_test_package("pkg1", PackageRepository::Official)];
    let state = AppState::new(packages, &[]);

    assert!(!state.has_official_scan_failed());
}

#[test]
fn test_has_official_scan_failed_with_official_failure() {
    let packages = vec![make_test_package("pkg1", PackageRepository::Official)];
    let mut state = AppState::new(packages, &[]);
    state.scan_warnings.push("Official scan failed".to_string());

    assert!(state.has_official_scan_failed());
}

#[test]
fn test_has_official_scan_failed_with_aur_failure_only() {
    let packages = vec![make_test_package("pkg1", PackageRepository::Official)];
    let mut state = AppState::new(packages, &[]);
    state.scan_warnings.push("AUR scan failed".to_string());

    assert!(!state.has_official_scan_failed());
}

#[test]
fn test_has_official_scan_failed_with_combined_failure() {
    let packages = vec![make_test_package("pkg1", PackageRepository::Official)];
    let mut state = AppState::new(packages, &[]);
    state
        .scan_warnings
        .push("Official & AUR scan failed".to_string());

    // Should detect "Official" marker even in combined message
    assert!(state.has_official_scan_failed());
}

#[test]
fn test_scan_failure_marker_constants() {
    // Verify constants are what we expect
    assert_eq!(OFFICIAL_SCAN_FAILURE_MARKER, "Official");
    assert_eq!(AUR_SCAN_FAILURE_MARKER, "AUR");
}

#[test]
fn test_set_dependency_conflicts_shows_modal() {
    let packages = vec![make_test_package("pkg1", PackageRepository::Official)];
    let mut state = AppState::new(packages, &[]);

    assert!(!state.show_dependency_warning);

    let conflicts = vec![DependencyConflict {
        ignored_package: "glibc".to_string(),
        required_by: vec!["systemd".to_string()],
    }];

    state.set_dependency_conflicts(conflicts);

    assert!(state.show_dependency_warning);
    assert_eq!(state.dependency_conflicts.len(), 1);
}

#[test]
fn test_toggle_dependency_warning() {
    let packages = vec![make_test_package("pkg1", PackageRepository::Official)];
    let mut state = AppState::new(packages, &[]);

    assert!(!state.show_dependency_warning);

    state.toggle_dependency_warning();
    assert!(state.show_dependency_warning);

    state.toggle_dependency_warning();
    assert!(!state.show_dependency_warning);
}

#[test]
fn test_has_conflicts() {
    let packages = vec![make_test_package("pkg1", PackageRepository::Official)];
    let mut state = AppState::new(packages, &[]);

    assert!(!state.has_conflicts());

    state.dependency_conflicts.push(DependencyConflict {
        ignored_package: "test".to_string(),
        required_by: vec!["dep".to_string()],
    });

    assert!(state.has_conflicts());
}

#[test]
fn test_pending_action_lifecycle() {
    let packages = vec![make_test_package("pkg1", PackageRepository::Official)];
    let mut state = AppState::new(packages, &[]);

    // Initially None
    assert!(state.pending_action.is_none());

    // Set action
    state.pending_action = Some(UIEvent::UpdateEntireSystem);
    assert!(state.pending_action.is_some());

    // Take consumes it
    let action = state.pending_action.take();
    assert!(matches!(action, Some(UIEvent::UpdateEntireSystem)));
    assert!(state.pending_action.is_none());

    // Clear sets to None
    state.pending_action = Some(UIEvent::UpdateOfficialOnly);
    state.pending_action = None;
    assert!(state.pending_action.is_none());
}

#[test]
fn test_reverse_deps_cache() {
    let packages = vec![make_test_package("pkg1", PackageRepository::Official)];
    let mut state = AppState::new(packages, &[]);

    let mut call_count = 0;

    // First call: cache miss, fetch called
    let (deps1, err1) = state.get_or_fetch_required_by("glibc", || {
        call_count += 1;
        Ok(vec!["systemd".to_string(), "bash".to_string()])
    });
    assert_eq!(call_count, 1);
    assert_eq!(deps1.len(), 2);
    assert!(err1.is_none());

    // Second call: cache hit, fetch not called
    let (deps2, err2) = state.get_or_fetch_required_by("glibc", || {
        call_count += 1;
        Ok(vec![]) // Should not be reached
    });
    assert_eq!(call_count, 1); // No increment - cache was used
    assert_eq!(deps2.len(), 2);
    assert!(err2.is_none());

    // Different package: cache miss again
    let (deps3, err3) = state.get_or_fetch_required_by("bash", || {
        call_count += 1;
        Ok(vec!["base".to_string()])
    });
    assert_eq!(call_count, 2);
    assert_eq!(deps3.len(), 1);
    assert!(err3.is_none());
}

#[test]
fn test_reverse_deps_cache_error_handling() {
    let packages = vec![make_test_package("pkg1", PackageRepository::Official)];
    let mut state = AppState::new(packages, &[]);

    // Fetch error: not cached
    let (deps1, err1) =
        state.get_or_fetch_required_by("nonexistent", || Err("Package not found".to_string()));
    assert!(deps1.is_empty());
    assert_eq!(err1, Some("Package not found".to_string()));

    // Error result is not cached: fetch called again
    let (deps2, err2) =
        state.get_or_fetch_required_by("nonexistent", || Err("Still not found".to_string()));
    assert!(deps2.is_empty());
    assert_eq!(err2, Some("Still not found".to_string()));
}

#[test]
fn test_is_ready_states() {
    let packages = vec![make_test_package("pkg1", PackageRepository::Official)];
    let mut state = AppState::new(packages, &[]);

    // Ready state
    state.loading_state = LoadingState::Ready;
    assert!(state.is_ready());

    // NoUpdates state
    state.loading_state = LoadingState::NoUpdates;
    assert!(state.is_ready());

    // Scanning state (not ready)
    state.loading_state = LoadingState::Scanning;
    assert!(!state.is_ready());

    // Error state (not ready)
    state.loading_state = LoadingState::Error("test".to_string());
    assert!(!state.is_ready());
}

fn names(list: &[&str]) -> Vec<String> {
    list.iter().map(|s| s.to_string()).collect()
}

fn three_packages() -> Vec<Package> {
    vec![
        make_test_package("pkg1", PackageRepository::Official),
        make_test_package("pkg2", PackageRepository::Aur),
        make_test_package("pkg3", PackageRepository::Official),
    ]
}

#[test]
fn loading_state_knows_nothing() {
    let state = AppState::new_loading();

    assert!(state.packages.is_empty());
    assert_eq!(state.cursor_position, 0);
    assert!(!state.show_help);
    assert_eq!(state.loading_state, LoadingState::Scanning);
    assert_eq!(state.loading_message, "Initializing...");
    assert!(state.scan_warnings.is_empty());
    assert!(state.dependency_conflicts.is_empty());
    assert!(!state.show_dependency_warning);
    assert!(state.pending_action.is_none());
    assert!(!state.is_ready());
    assert!(!state.has_conflicts());
}

#[test]
fn new_state_is_ready_with_an_empty_status_line() {
    let state = AppState::new(three_packages(), &[]);

    assert_eq!(state.loading_state, LoadingState::Ready);
    assert_eq!(state.loading_message, "");
    assert_eq!(state.stats(), (2, 1, 0));
}

#[test]
fn empty_result_always_means_no_updates() {
    let mut scanning = AppState::new_loading();
    scanning.apply_scan_message(ScanMessage::Complete(Vec::new()), &names(&["pkg1"]));
    assert_eq!(scanning.loading_state, LoadingState::NoUpdates);
    assert!(scanning.packages.is_empty());

    let mut ready = AppState::new(three_packages(), &[]);
    ready.move_cursor_down();
    ready.apply_scan_message(ScanMessage::Complete(Vec::new()), &[]);
    assert_eq!(ready.loading_state, LoadingState::NoUpdates);
}

#[test]
fn result_with_packages_always_shows_the_list_from_the_top() {
    let mut state = AppState::new(three_packages(), &[]);
    state.move_cursor_down();
    state.move_cursor_down();
    state.toggle_current_package();
    let _ = state.get_or_fetch_required_by("glibc", || Ok(names(&["bash"])));
    state.loading_state = LoadingState::Scanning;

    state.apply_scan_message(
        ScanMessage::Complete(vec![
            make_test_package("new1", PackageRepository::Aur),
            make_test_package("new2", PackageRepository::Official),
        ]),
        &names(&["new2"]),
    );

    assert_eq!(state.loading_state, LoadingState::Ready);
    assert_eq!(state.cursor_position, 0);
    assert_eq!(state.packages.len(), 2);
    assert_eq!(state.packages[0].package.name, "new1");
    assert!(!state.packages[0].is_permanently_ignored);
    assert!(state.packages[1].is_permanently_ignored);
    assert!(state.packages.iter().all(|item| !item.is_temporarily_ignored));

    let mut asked = false;
    let _ = state.get_or_fetch_required_by("glibc", || {
        asked = true;
        Ok(Vec::new())
    });
    assert!(asked);
}

#[test]
fn progress_replaces_the_status_line_and_warnings_pile_up() {
    let mut state = AppState::new_loading();

    state.apply_scan_message(ScanMessage::Progress("one".to_string()), &[]);
    state.apply_scan_message(ScanMessage::ScanWarning("AUR scan failed".to_string()), &[]);
    state.apply_scan_message(ScanMessage::Progress("two".to_string()), &[]);
    state.apply_scan_message(ScanMessage::ScanWarning("again".to_string()), &[]);

    assert_eq!(state.loading_message, "two");
    assert_eq!(state.scan_warnings, vec!["AUR scan failed", "again"]);
    assert_eq!(state.loading_state, LoadingState::Scanning);
}

#[test]
fn failed_official_scan_with_aur_packages_ends_ready_with_one_warning() {
    let mut state = AppState::new_loading();
    let messages = vec![
        ScanMessage::Progress("Scanning official repositories...".to_string()),
        ScanMessage::Progress("Scanning AUR packages...".to_string()),
        ScanMessage::ScanWarning("Official scan failed".to_string()),
        ScanMessage::Complete(vec![make_test_package("paru-bin", PackageRepository::Aur)]),
    ];

    for message in messages {
        state.apply_scan_message(message, &[]);
    }

    assert_eq!(state.loading_state, LoadingState::Ready);
    assert_eq!(state.scan_warnings.len(), 1);
    assert!(state.scan_warnings[0].contains(OFFICIAL_SCAN_FAILURE_MARKER));
    assert!(state.has_official_scan_failed());
    assert_eq!(state.stats(), (0, 1, 0));
}

#[test]
fn marker_is_found_anywhere_in_any_warning() {
    let mut state = AppState::new_loading();
    state.add_scan_warning("ficial".to_string());
    state.add_scan_warning("official".to_string());
    state.add_scan_warning("Officia".to_string());
    assert!(!state.has_official_scan_failed());

    state.add_scan_warning("the Officials".to_string());
    assert!(state.has_official_scan_failed());
}

#[test]
fn setters_change_their_field_only() {
    let mut state = AppState::new(three_packages(), &[]);

    state.set_loading_message("working".to_string());
    assert_eq!(state.loading_message, "working");
    assert_eq!(state.loading_state, LoadingState::Ready);

    state.set_error("broken".to_string());
    assert_eq!(state.loading_state, LoadingState::Error("broken".to_string()));
    assert_eq!(state.packages.len(), 3);

    state.set_no_updates();
    assert_eq!(state.loading_state, LoadingState::NoUpdates);
    assert_eq!(state.packages.len(), 3);
    assert_eq!(state.loading_message, "working");
}

#[test]
fn toggles_never_set_both_flags() {
    let mut state = AppState::new(three_packages(), &names(&["pkg2"]));
    let steps: [u8; 24] = [0, 2, 1, 0, 3, 2, 1, 1, 3, 0, 2, 3, 3, 0, 2, 0, 1, 3, 2, 2, 0, 3, 1, 1];

    for step in steps {
        match step {
            0 => state.toggle_current_package(),
            1 => state.toggle_permanent_ignore(),
            2 => state.move_cursor_down(),
            _ => state.move_cursor_up(),
        }
        assert!(state.cursor_position < state.packages.len());
        for item in &state.packages {
            assert!(!(item.is_temporarily_ignored && item.is_permanently_ignored));
        }
    }
}

#[test]
fn removing_a_permanent_exclusion_leaves_the_item_free() {
    let mut state = AppState::new(three_packages(), &names(&["pkg1"]));

    state.toggle_permanent_ignore();

    assert!(!state.packages[0].is_permanently_ignored);
    assert!(!state.packages[0].is_temporarily_ignored);
    assert!(state.get_ignored_packages().is_empty());
}

#[test]
fn toggles_and_moves_on_an_empty_list_do_nothing() {
    let mut state = AppState::new(Vec::new(), &[]);

    state.toggle_current_package();
    state.toggle_permanent_ignore();
    state.move_cursor_down();
    state.move_cursor_up();

    assert_eq!(state.cursor_position, 0);
    assert!(state.packages.is_empty());
}

#[test]
fn a_changed_flag_empties_the_cache() {
    let mut state = AppState::new(three_packages(), &names(&["pkg1"]));
    let _ = state.get_or_fetch_required_by("glibc", || Ok(names(&["bash"])));

    // The item under the cursor is excluded for good: nothing changes.
    state.toggle_current_package();
    let (kept, _) = state.get_or_fetch_required_by("glibc", || Ok(names(&["zsh"])));
    assert_eq!(kept, vec!["bash"]);

    state.move_cursor_down();
    state.toggle_current_package();
    let (asked_again, _) = state.get_or_fetch_required_by("glibc", || Ok(names(&["zsh"])));
    assert_eq!(asked_again, vec!["zsh"]);

    state.toggle_permanent_ignore();
    let (and_again, _) = state.get_or_fetch_required_by("glibc", || Ok(names(&["fish"])));
    assert_eq!(and_again, vec!["fish"]);
}

#[test]
fn cache_answers_with_what_the_first_fetch_returned() {
    let mut state = AppState::new_loading();
    assert_eq!(state.cached_required_by("glibc"), None);

    let first = state.get_or_fetch_required_by("glibc", || Ok(names(&["systemd", "bash"])));
    assert_eq!(first, (names(&["systemd", "bash"]), None));
    assert_eq!(state.cached_required_by("glibc"), Some(names(&["systemd", "bash"])));

    let mut calls = 0;
    for _ in 0..3 {
        let again = state.get_or_fetch_required_by("glibc", || {
            calls += 1;
            Err("must not be asked".to_string())
        });
        assert_eq!(again, (names(&["systemd", "bash"]), None));
    }
    assert_eq!(calls, 0);
}

#[test]
fn failed_fetch_is_asked_again_and_then_kept() {
    let mut state = AppState::new_loading();
    let mut calls = 0;

    let first = state.get_or_fetch_required_by("glibc", || {
        calls += 1;
        Err("timeout".to_string())
    });
    assert_eq!(first, (Vec::new(), Some("timeout".to_string())));
    assert_eq!(state.cached_required_by("glibc"), None);

    let second = state.get_or_fetch_required_by("glibc", || {
        calls += 1;
        Ok(Vec::new())
    });
    assert_eq!(second, (Vec::new(), None));
    assert_eq!(calls, 2);
    assert_eq!(state.cached_required_by("glibc"), Some(Vec::new()));
}

#[test]
fn recorded_fetch_is_what_later_lookups_find() {
    let mut state = AppState::new_loading();

    assert_eq!(
        state.record_fetch("bash", Err("no".to_string())),
        (Vec::new(), Some("no".to_string()))
    );
    assert_eq!(state.cached_required_by("bash"), None);

    assert_eq!(state.record_fetch("bash", Ok(names(&["base"]))), (names(&["base"]), None));
    assert_eq!(state.cached_required_by("bash"), Some(names(&["base"])));
    assert_eq!(state.cached_required_by("base"), None);
}

#[test]
fn empty_conflicts_do_not_show_the_warning() {
    let mut state = AppState::new(three_packages(), &[]);

    state.set_dependency_conflicts(Vec::new());
    assert!(!state.show_dependency_warning);
    assert!(!state.has_conflicts());

    state.set_dependency_conflicts(vec![DependencyConflict {
        ignored_package: "glibc".to_string(),
        required_by: names(&["bash"]),
    }]);
    state.set_dependency_conflicts(Vec::new());
    assert!(state.show_dependency_warning);
    assert!(!state.has_conflicts());
}

#[test]
fn pending_action_is_a_plain_event() {
    let mut state = AppState::new(three_packages(), &[]);
    state.pending_action = Some(UIEvent::UpdateOfficialOnly);
    assert_eq!(state.pending_action.take(), Some(UIEvent::UpdateOfficialOnly));
}
