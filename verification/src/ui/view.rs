//! What the screen says and where: the texts and the measures of the
//! display, without the drawing.

use super::app::{AppState, AppStateView};
use crate::logic::dependency::{ConflictView, DependencyConflict};
use crate::logic::filter::{aur, ignored, official, PackageItem, PackageItemView};
use crate::models::package::PackageRepository;
use crate::text::{decimal, join_text, push_decimal, push_joined};
use vstd::prelude::*;
use vstd::string::*;

verus! {

/// `n` spaces.
pub open spec fn spaces(n: nat) -> Seq<char> {
    Seq::new(n, |i: int| ' ')
}

/// `s`, filled up with spaces to `width` characters. A longer text stays as
/// it is.
pub open spec fn padded(s: Seq<char>, width: nat) -> Seq<char> {
    if s.len() >= width {
        s
    } else {
        s + spaces((width - s.len()) as nat)
    }
}

/// Appends `n` spaces to `out`.
pub fn push_spaces(out: &mut String, n: usize)
    ensures
        final(out)@ == old(out)@ + spaces(n as nat),
{
    let mut i: usize = 0;
    assert(out@ =~= old(out)@ + spaces(0));
    while i < n
        invariant
            i <= n,
            out@ == old(out)@ + spaces(i as nat),
        decreases n - i,
    {
        out.push(' ');
        i += 1;
        assert(out@ =~= old(out)@ + spaces(i as nat));
    }
}

/// Appends `s` to `out` and fills up with spaces to `width` characters.
pub fn push_padded(out: &mut String, s: &str, width: usize)
    ensures
        final(out)@ == old(out)@ + padded(s@, width as nat),
{
    let len = s.unicode_len();
    out.append(s);
    if len < width {
        push_spaces(out, width - len);
        assert(out@ =~= old(out)@ + padded(s@, width as nat));
    }
}

/// Which part of a list is shown.
///
/// The first row to show of a list of `total_items` rows in a window of
/// `visible_height` rows, with the cursor on row `cursor`: the top of the
/// list while it fits or the cursor is in the upper half of the window, the
/// bottom of the list when the cursor is within half a window of the end,
/// and else the row half a window above the cursor.
pub open spec fn first_visible_row(total_items: nat, cursor: nat, visible_height: nat) -> nat {
    if total_items <= visible_height || cursor < visible_height / 2 {
        0
    } else if cursor >= total_items - visible_height / 2 {
        (total_items - visible_height) as nat
    } else {
        (cursor - visible_height / 2) as nat
    }
}

/// The first row to show, so that the cursor stays in the window.
pub fn scroll_offset(total_items: usize, cursor: usize, visible_height: usize) -> (r: usize)
    ensures
        r == first_visible_row(total_items as nat, cursor as nat, visible_height as nat),
{
    if total_items <= visible_height || cursor < visible_height / 2 {
        0
    } else if cursor >= total_items - visible_height / 2 {
        total_items - visible_height
    } else {
        cursor - visible_height / 2
    }
}

/// The window never leaves the cursor out: with the cursor on the list and
/// a window of at least one row, the cursor's row is among the rows shown,
/// and the window does not reach past the end of a list that fills it.
pub proof fn lemma_cursor_stays_visible(total_items: nat, cursor: nat, visible_height: nat)
    requires
        cursor < total_items,
        visible_height > 0,
    ensures
        ({
            let first = first_visible_row(total_items, cursor, visible_height);
            &&& first <= cursor < first + visible_height
            &&& total_items >= visible_height ==> first + visible_height <= total_items
        }),
{
}

/// How many lines the list of conflicts takes: for each conflict its
/// heading, one line for each dependent, and an empty line.
pub open spec fn conflict_lines(conflicts: Seq<ConflictView>) -> nat
    decreases conflicts.len(),
{
    if conflicts.len() == 0 {
        0
    } else {
        conflict_lines(conflicts.drop_last()) + 2 + conflicts.last().required_by.len()
    }
}

/// The lines above and below the list of conflicts, with borders and
/// padding.
pub const WARNING_FRAME_LINES: usize = 13;

/// The height of the dependency warning, in percent of a screen of
/// `max_height` lines: what the text needs, but no less than 40 and no
/// more than 80.
pub open spec fn warning_height(conflicts: Seq<ConflictView>, max_height: nat) -> nat {
    let wanted = WARNING_FRAME_LINES as nat + conflict_lines(conflicts);
    let needed = if wanted > u16::MAX as nat {
        u16::MAX as nat
    } else {
        wanted
    };
    let percent = needed * 100 / max_height;
    if percent < 40 {
        40
    } else if percent > 80 {
        80
    } else {
        percent
    }
}

/// The height of the dependency warning in percent of the screen.
pub fn warning_height_percent(conflicts: &[DependencyConflict], max_height: u16) -> (r: u16)
    requires
        max_height > 0,
    ensures
        r == warning_height(conflicts.deep_view(), max_height as nat),
        40 <= r <= 80,
{
    let cap: usize = 65535;
    let mut lines: usize = 0;
    let mut i: usize = 0;
    assert(conflicts.deep_view().take(0) =~= Seq::empty());
    while i < conflicts.len()
        invariant
            i <= conflicts.len(),
            cap == 65535,
            lines <= cap,
            lines == if conflict_lines(conflicts.deep_view().take(i as int)) > cap {
                cap as nat
            } else {
                conflict_lines(conflicts.deep_view().take(i as int))
            },
        decreases conflicts.len() - i,
    {
        proof {
            let seen = conflicts.deep_view().take(i + 1);
            assert(seen.drop_last() =~= conflicts.deep_view().take(i as int));
            assert(seen.last().required_by.len() == conflicts[i as int].required_by.len());
        }
        let n = conflicts[i].required_by.len();
        if n >= cap || lines + 2 + n > cap {
            lines = cap;
        } else {
            lines = lines + 2 + n;
        }
        i += 1;
    }
    assert(conflicts.deep_view().take(conflicts.len() as int) =~= conflicts.deep_view());
    let wanted = lines + WARNING_FRAME_LINES;
    let needed: u32 = if wanted > cap {
        65535
    } else {
        wanted as u32
    };
    let percent = needed * 100 / (max_height as u32);
    if percent < 40 {
        40
    } else if percent > 80 {
        80
    } else {
        percent as u16
    }
}

/// The number of frames of the spinner.
pub const SPINNER_FRAMES: usize = 10;

/// How long a frame of the spinner is shown, in milliseconds.
pub const SPINNER_FRAME_MILLIS: u128 = 100;

/// The frame of the spinner at `now_millis` milliseconds: each frame is
/// shown for a tenth of a second, and the tenth frame is followed by the
/// first.
pub fn spinner_frame(now_millis: u128) -> (r: usize)
    ensures
        r == (now_millis / SPINNER_FRAME_MILLIS) % (SPINNER_FRAMES as u128),
        r < SPINNER_FRAMES,
{
    ((now_millis / SPINNER_FRAME_MILLIS) % (SPINNER_FRAMES as u128)) as usize
}

/// The picture of the spinner at `now_millis` milliseconds.
pub fn get_spinner(now_millis: u128) -> (r: &'static str)
    ensures
        r@ == spinner_picture(((now_millis / SPINNER_FRAME_MILLIS) % (SPINNER_FRAMES as u128)) as nat),
{
    let frame = spinner_frame(now_millis);
    if frame == 0 {
        "⠋"
    } else if frame == 1 {
        "⠙"
    } else if frame == 2 {
        "⠹"
    } else if frame == 3 {
        "⠸"
    } else if frame == 4 {
        "⠼"
    } else if frame == 5 {
        "⠴"
    } else if frame == 6 {
        "⠦"
    } else if frame == 7 {
        "⠧"
    } else if frame == 8 {
        "⠇"
    } else {
        "⠏"
    }
}

/// The picture of frame `frame` of the spinner.
pub open spec fn spinner_picture(frame: nat) -> Seq<char> {
    if frame == 0 {
        "⠋"@
    } else if frame == 1 {
        "⠙"@
    } else if frame == 2 {
        "⠹"@
    } else if frame == 3 {
        "⠸"@
    } else if frame == 4 {
        "⠼"@
    } else if frame == 5 {
        "⠴"@
    } else if frame == 6 {
        "⠦"@
    } else if frame == 7 {
        "⠧"@
    } else if frame == 8 {
        "⠇"@
    } else {
        "⠏"@
    }
}

/// The shares of a popup that takes `percent` of the screen in one
/// direction: the margin before it, the popup, and the margin after it, in
/// percent.
pub fn popup_shares(percent: u16) -> (r: (u16, u16, u16))
    requires
        percent <= 100,
    ensures
        r.0 == (100 - percent) / 2,
        r.1 == percent,
        r.2 == (100 - percent) / 2,
{
    let margin = (100 - percent) / 2;
    (margin, percent, margin)
}

/// The left part of the header.
pub open spec fn header_title(updates: nat) -> Seq<char> {
    "par_tui - [Updates Found: "@ + decimal(updates) + "]"@
}

/// The header of a screen `width` characters wide: the title at the left,
/// the hint at the right, and between them the spaces that are left over.
pub open spec fn header_text(updates: nat, width: nat) -> Seq<char> {
    let left = header_title(updates);
    let right = "[Help: ?]"@;
    let padding = if width >= left.len() + right.len() {
        (width - left.len() - right.len()) as nat
    } else {
        0
    };
    left + spaces(padding) + right
}

/// The header line.
pub fn header_line(updates: usize, width: usize) -> (r: String)
    ensures
        r@ == header_text(updates as nat, width as nat),
{
    let mut r = "par_tui - [Updates Found: ".to_string();
    push_decimal(&mut r, updates);
    r.append("]");
    assert(r@ =~= header_title(updates as nat));
    let right = "[Help: ?]";
    let left_len = r.as_str().unicode_len();
    let right_len = right.unicode_len();
    let padding = if width >= left_len && width - left_len >= right_len {
        width - left_len - right_len
    } else {
        0
    };
    push_spaces(&mut r, padding);
    r.append(right);
    assert(r@ =~= header_text(updates as nat, width as nat));
    r
}

/// The numbers of the status line.
pub open spec fn stats_text(from_official: nat, from_aur: nat, excluded: nat) -> Seq<char> {
    "Stats: Official ("@ + decimal(from_official) + ") | AUR ("@ + decimal(from_aur)
        + ") | To Ignore: "@ + decimal(excluded)
}

/// The status line: the numbers, then the warnings of the scan if there
/// are any, and the hint to retry if the official scan failed.
pub open spec fn status_text(state: AppStateView) -> Seq<char> {
    let stats = stats_text(
        state.packages.filter(official()).len(),
        state.packages.filter(aur()).len(),
        state.packages.filter(ignored()).len(),
    );
    if state.scan_warnings.len() == 0 {
        stats
    } else if state.official_scan_failed() {
        stats + " | ⚠ "@ + join_text(state.scan_warnings, ", "@) + " (Press [r] to retry)"@
    } else {
        stats + " | ⚠ "@ + join_text(state.scan_warnings, ", "@)
    }
}

/// The status line.
pub fn status_line(state: &AppState) -> (r: String)
    ensures
        r@ == status_text(state@),
{
    let (from_official, from_aur, excluded) = state.stats();
    let mut r = "Stats: Official (".to_string();
    push_decimal(&mut r, from_official);
    r.append(") | AUR (");
    push_decimal(&mut r, from_aur);
    r.append(") | To Ignore: ");
    push_decimal(&mut r, excluded);
    assert(r@ =~= stats_text(from_official as nat, from_aur as nat, excluded as nat));
    if state.scan_warnings.len() > 0 {
        r.append(" | ⚠ ");
        push_joined(&mut r, &state.scan_warnings, ", ");
        if state.has_official_scan_failed() {
            r.append(" (Press [r] to retry)");
        }
    }
    assert(r@ =~= status_text(state@));
    r
}

/// The line of key hints. Reload is offered only when the official scan
/// failed.
pub open spec fn keybinds_text(state: AppStateView) -> Seq<char> {
    let base = "[Enter] Entire  [o] Official  [Space] Toggle  [p] Perm  [q] Quit"@;
    if state.official_scan_failed() {
        base + "  [r] Reload"@
    } else {
        base
    }
}

/// The line of key hints.
pub fn keybinds_line(state: &AppState) -> (r: String)
    ensures
        r@ == keybinds_text(state@),
{
    let mut r = "[Enter] Entire  [o] Official  [Space] Toggle  [p] Perm  [q] Quit".to_string();
    if state.has_official_scan_failed() {
        r.append("  [r] Reload");
    }
    r
}

/// The texts of one row of the list.
pub struct PackageRow {
    /// `"> "` on the row under the cursor, two spaces elsewhere.
    pub cursor: String,
    /// `"[x]"` for an excluded item, `"[ ]"` for the others.
    pub checkbox: String,
    /// The source of the update.
    pub badge: String,
    /// The name, filled up to 20 characters, and a space.
    pub name: String,
    /// The current version, filled up to 12 characters, an arrow and the
    /// new version.
    pub versions: String,
    /// `" (PERM)"` for an item excluded for good, empty for the others.
    pub marker: String,
    /// Whether the row is the one under the cursor.
    pub selected: bool,
}

/// A `PackageRow` with every text as a sequence of characters.
pub struct PackageRowView {
    pub cursor: Seq<char>,
    pub checkbox: Seq<char>,
    pub badge: Seq<char>,
    pub name: Seq<char>,
    pub versions: Seq<char>,
    pub marker: Seq<char>,
    pub selected: bool,
}

impl View for PackageRow {
    type V = PackageRowView;

    open spec fn view(&self) -> PackageRowView {
        PackageRowView {
            cursor: self.cursor@,
            checkbox: self.checkbox@,
            badge: self.badge@,
            name: self.name@,
            versions: self.versions@,
            marker: self.marker@,
            selected: self.selected,
        }
    }
}

/// The row for `item`; `selected` says whether the cursor is on it.
pub open spec fn row_of(item: PackageItemView, selected: bool) -> PackageRowView {
    PackageRowView {
        cursor: if selected {
            "> "@
        } else {
            "  "@
        },
        checkbox: if item.is_temporarily_ignored || item.is_permanently_ignored {
            "[x]"@
        } else {
            "[ ]"@
        },
        badge: match item.package.repository {
            PackageRepository::Official => "Official"@,
            PackageRepository::Aur => "AUR"@,
        },
        name: padded(item.package.name, 20) + " "@,
        versions: padded(
            match item.package.current_version {
                Some(v) => v,
                None => "?"@,
            },
            12,
        ) + " -> "@ + item.package.new_version,
        marker: if item.is_permanently_ignored {
            " (PERM)"@
        } else {
            Seq::empty()
        },
        selected,
    }
}

/// The texts of the row for `item`.
pub fn package_row(item: &PackageItem, selected: bool) -> (r: PackageRow)
    ensures
        r@ == row_of(item@, selected),
{
    let cursor = if selected {
        "> ".to_string()
    } else {
        "  ".to_string()
    };
    let checkbox = if item.is_temporarily_ignored || item.is_permanently_ignored {
        "[x]".to_string()
    } else {
        "[ ]".to_string()
    };
    let badge = match item.package.repository {
        PackageRepository::Official => "Official".to_string(),
        PackageRepository::Aur => "AUR".to_string(),
    };
    let mut name = String::new();
    push_padded(&mut name, item.package.name.as_str(), 20);
    name.append(" ");
    assert(name@ =~= padded(item.package.name@, 20) + " "@);
    let mut versions = String::new();
    match &item.package.current_version {
        Some(v) => {
            push_padded(&mut versions, v.as_str(), 12);
        },
        None => {
            push_padded(&mut versions, "?", 12);
        },
    }
    versions.append(" -> ");
    versions.append(item.package.new_version.as_str());
    assert(versions@ =~= row_of(item@, selected).versions);
    let marker = if item.is_permanently_ignored {
        " (PERM)".to_string()
    } else {
        String::new()
    };
    PackageRow { cursor, checkbox, badge, name, versions, marker, selected }
}

} // verus!
