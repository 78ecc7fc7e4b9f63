//! What each key does to the session.

use super::app::{AppState, AppStateView, LoadingState, LoadingStateView, UIEvent};
use vstd::prelude::*;

verus! {

/// A key press, as far as the session tells keys apart.
#[derive(Debug, Clone, Copy, PartialEq, Eq, Structural)]
pub enum KeyCode {
    Char(char),
    Enter,
    Esc,
    Up,
    Down,
    /// Any other key.
    Other,
}

/// Result from handling key events in modals.
#[derive(Debug, Clone, Copy, PartialEq, Eq, Structural)]
pub enum ModalResult {
    /// The user accepted: the pending update, if there was one, goes ahead.
    Proceed(Option<UIEvent>),
    /// The user declined.
    Cancel,
    /// The user quit.
    Quit,
    /// The key means nothing here.
    IgnoreKey,
}

impl AppStateView {
    /// The state and the result after a key while the dependency warning is
    /// shown. Accepting hides the warning and takes the pending update;
    /// declining hides the warning and drops the pending update; quitting
    /// drops the pending update; every other key changes nothing.
    pub open spec fn after_modal_key(self, key: KeyCode) -> (AppStateView, ModalResult) {
        match key {
            KeyCode::Char('y') => (
                AppStateView { show_dependency_warning: false, pending_action: None, ..self },
                ModalResult::Proceed(self.pending_action),
            ),
            KeyCode::Char('n') | KeyCode::Esc => (
                AppStateView { show_dependency_warning: false, pending_action: None, ..self },
                ModalResult::Cancel,
            ),
            KeyCode::Char('q') => (
                AppStateView { pending_action: None, ..self },
                ModalResult::Quit,
            ),
            _ => (self, ModalResult::IgnoreKey),
        }
    }

    /// The state after the user committed to `update`.
    pub open spec fn committed(self, update: UIEvent) -> (AppStateView, Option<UIEvent>) {
        (AppStateView { pending_action: Some(update), ..self }, Some(update))
    }

    /// The state and the event after a key while no warning is shown.
    ///
    /// `q` quits in every state. `r` reloads once the scan is over, if the
    /// official repositories could not be scanned: the session goes back to
    /// scanning and keeps everything else, the list and the warnings too,
    /// until the caller has a new scan replace them. All other keys count
    /// only while the list is shown: they move the cursor, toggle an
    /// exclusion or the help, or commit to an update.
    pub open spec fn after_plain_key(self, key: KeyCode) -> (AppStateView, Option<UIEvent>) {
        if key == KeyCode::Char('q') {
            (self, Some(UIEvent::Quit))
        } else if key == KeyCode::Char('r') && self.is_ready() && self.official_scan_failed() {
            (
                AppStateView { loading_state: LoadingStateView::Scanning, ..self },
                Some(UIEvent::Reload),
            )
        } else if self.loading_state is Ready {
            match key {
                KeyCode::Char('?') => (AppStateView { show_help: !self.show_help, ..self }, None),
                KeyCode::Char('j') | KeyCode::Down => (self.moved_down(), None),
                KeyCode::Char('k') | KeyCode::Up => (self.moved_up(), None),
                KeyCode::Char('p') => (self.with_permanent_toggled(), None),
                KeyCode::Char(' ') => (self.with_temporary_toggled(), None),
                KeyCode::Char('o') => self.committed(UIEvent::UpdateOfficialOnly),
                KeyCode::Enter => self.committed(UIEvent::UpdateEntireSystem),
                _ => (self, None),
            }
        } else {
            (self, None)
        }
    }

    /// The state after a key, and the event that ends the interaction if
    /// the key brings one. While the dependency warning is shown it takes
    /// every key.
    pub open spec fn after_key(self, key: KeyCode) -> (AppStateView, Option<UIEvent>) {
        if self.show_dependency_warning {
            let (next, result) = self.after_modal_key(key);
            (
                next,
                match result {
                    ModalResult::Proceed(event) => event,
                    ModalResult::Quit => Some(UIEvent::Quit),
                    ModalResult::Cancel | ModalResult::IgnoreKey => None,
                },
            )
        } else {
            self.after_plain_key(key)
        }
    }

    /// The state after a run of keys.
    pub open spec fn after_keys(self, keys: Seq<KeyCode>) -> AppStateView
        decreases keys.len(),
    {
        if keys.len() == 0 {
            self
        } else {
            self.after_key(keys[0]).0.after_keys(keys.drop_first())
        }
    }
}

/// Handles key events in the main application state.
///
/// Returns `Some(UIEvent)` for terminating events, `None` to continue.
pub fn handle_key_event(state: &mut AppState, key_code: KeyCode) -> (event: Option<UIEvent>)
    ensures
        (final(state)@, event) == old(state)@.after_key(key_code),
{
    if state.show_dependency_warning {
        return match handle_dependency_warning_modal(state, key_code) {
            ModalResult::Proceed(event) => event,
            ModalResult::Quit => Some(UIEvent::Quit),
            ModalResult::Cancel => None,
            ModalResult::IgnoreKey => None,
        };
    }
    match key_code {
        KeyCode::Char('q') => {
            return Some(UIEvent::Quit);
        },
        KeyCode::Char('r') => {
            if state.is_ready() && state.has_official_scan_failed() {
                state.loading_state = LoadingState::Scanning;
                return Some(UIEvent::Reload);
            }
        },
        _ => {},
    }
    match state.loading_state {
        LoadingState::Ready => {},
        _ => {
            return None;
        },
    }
    match key_code {
        KeyCode::Char('?') => {
            state.toggle_help();
            None
        },
        KeyCode::Char('j') | KeyCode::Down => {
            state.move_cursor_down();
            None
        },
        KeyCode::Char('k') | KeyCode::Up => {
            state.move_cursor_up();
            None
        },
        KeyCode::Char('p') => {
            state.toggle_permanent_ignore();
            None
        },
        KeyCode::Char(' ') => {
            state.toggle_current_package();
            None
        },
        KeyCode::Char('o') => {
            state.pending_action = Some(UIEvent::UpdateOfficialOnly);
            Some(UIEvent::UpdateOfficialOnly)
        },
        KeyCode::Enter => {
            state.pending_action = Some(UIEvent::UpdateEntireSystem);
            Some(UIEvent::UpdateEntireSystem)
        },
        _ => None,
    }
}

/// Handles key events in dependency warning modal.
pub fn handle_dependency_warning_modal(state: &mut AppState, key_code: KeyCode) -> (result:
    ModalResult)
    ensures
        (final(state)@, result) == old(state)@.after_modal_key(key_code),
{
    match key_code {
        KeyCode::Char('y') => {
            state.show_dependency_warning = false;
            ModalResult::Proceed(state.pending_action.take())
        },
        KeyCode::Char('n') | KeyCode::Esc => {
            state.show_dependency_warning = false;
            state.pending_action = None;
            ModalResult::Cancel
        },
        KeyCode::Char('q') => {
            state.pending_action = None;
            ModalResult::Quit
        },
        _ => ModalResult::IgnoreKey,
    }
}

/// No run of keys leaves an item excluded both ways, or the cursor off the
/// list.
pub proof fn lemma_keys_keep_state_well_formed(state: AppStateView, keys: Seq<KeyCode>)
    requires
        state.wf(),
    ensures
        state.after_keys(keys).wf(),
    decreases keys.len(),
{
    if keys.len() > 0 {
        let next = state.after_key(keys[0]).0;
        assert(next.wf());
        lemma_keys_keep_state_well_formed(next, keys.drop_first());
    }
}

/// Quit is accepted in every state, and always ends the interaction.
pub proof fn lemma_quit_always_ends(state: AppStateView)
    ensures
        state.after_key(KeyCode::Char('q')).1 == Some(UIEvent::Quit),
{
}

/// While the dependency warning is shown no key reaches the list: items,
/// cursor, help and scan state stay as they are.
pub proof fn lemma_warning_takes_every_key(state: AppStateView, key: KeyCode)
    requires
        state.show_dependency_warning,
    ensures
        ({
            let next = state.after_key(key).0;
            &&& next.packages == state.packages
            &&& next.cursor_position == state.cursor_position
            &&& next.show_help == state.show_help
            &&& next.loading_state == state.loading_state
            &&& next.scan_warnings == state.scan_warnings
            &&& next.reverse_deps_cache == state.reverse_deps_cache
        }),
{
}

/// The pending update is consumed exactly once: whichever key closes the
/// dependency warning leaves none behind, only accepting hands it on, and
/// a key that means nothing keeps it.
pub proof fn lemma_pending_update_is_consumed_once(state: AppStateView, key: KeyCode)
    requires
        state.show_dependency_warning,
    ensures
        ({
            let (next, event) = state.after_key(key);
            &&& key == KeyCode::Char('y') ==> event == state.pending_action
                && next.pending_action is None && !next.show_dependency_warning
            &&& (key == KeyCode::Char('n') || key == KeyCode::Esc) ==> event is None
                && next.pending_action is None && !next.show_dependency_warning
            &&& key == KeyCode::Char('q') ==> event == Some(UIEvent::Quit)
                && next.pending_action is None
            &&& (key != KeyCode::Char('y') && key != KeyCode::Char('n') && key != KeyCode::Esc
                && key != KeyCode::Char('q')) ==> event is None && next == state
        }),
{
}

/// A reload only sends the session back to scanning: whether it is accepted
/// or not, the list with its flags, the cursor, the warnings of the scan
/// and the cache stay as they are, and a refused reload changes nothing at
/// all.
pub proof fn lemma_reload_keeps_the_session(state: AppStateView)
    requires
        !state.show_dependency_warning,
    ensures
        ({
            let (next, event) = state.after_key(KeyCode::Char('r'));
            let accepted = state.is_ready() && state.official_scan_failed();
            &&& event == if accepted {
                Some(UIEvent::Reload)
            } else {
                None
            }
            &&& accepted ==> next.loading_state is Scanning
            &&& !accepted ==> next == state
            &&& next.packages == state.packages
            &&& next.cursor_position == state.cursor_position
            &&& next.scan_warnings == state.scan_warnings
            &&& next.reverse_deps_cache == state.reverse_deps_cache
            &&& next.pending_action == state.pending_action
            &&& next.show_help == state.show_help
        }),
{
}

/// Outside the dependency warning, keys other than quit count only in
/// the states that accept them: reload once the scan is over and the
/// official scan has failed, everything else while the list is shown.
pub proof fn lemma_keys_are_honoured_by_state(state: AppStateView, key: KeyCode)
    requires
        !state.show_dependency_warning,
        key != KeyCode::Char('q'),
    ensures
        ({
            let (next, event) = state.after_key(key);
            &&& event == Some(UIEvent::Reload) <==> key == KeyCode::Char('r') && state.is_ready()
                && state.official_scan_failed()
            &&& event == Some(UIEvent::Reload) ==> next == (AppStateView {
                loading_state: LoadingStateView::Scanning,
                ..state
            })
            &&& !(state.loading_state is Ready) && event != Some(UIEvent::Reload) ==> next
                == state && event is None
            &&& (event == Some(UIEvent::UpdateEntireSystem) || event == Some(
                UIEvent::UpdateOfficialOnly,
            )) ==> state.loading_state is Ready && next.pending_action == event
        }),
{
}

} // verus!
