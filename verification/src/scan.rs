//! The scan worker: what it reports to the interactive side, and in which
//! order.
//!
//! The worker itself only decides. Whoever drives it runs the queries,
//! reads the cancellation flag and sends the messages, and tells the worker
//! how each of these went.

use crate::models::package::{Package, PackageRepository, PackageView};
use crate::parser::pacman::{parse_checkupdates_output, parse_updates};
use crate::parser::paru::parse_paru_output;
use crate::text::{contains_text, decimal, push_decimal};
use vstd::prelude::*;
use vstd::string::*;

verus! {

/// What the scan worker reports.
pub enum ScanMessage {
    /// A line of status for the display.
    Progress(String),
    /// One or both sources could not be scanned.
    ScanWarning(String),
    /// The scan is over; these are the updates that were found.
    Complete(Vec<Package>),
}

/// A `ScanMessage` with every text as a sequence of characters.
pub enum ScanMessageView {
    Progress(Seq<char>),
    ScanWarning(Seq<char>),
    Complete(Seq<PackageView>),
}

impl View for ScanMessage {
    type V = ScanMessageView;

    open spec fn view(&self) -> ScanMessageView {
        match *self {
            ScanMessage::Progress(t) => ScanMessageView::Progress(t@),
            ScanMessage::ScanWarning(t) => ScanMessageView::ScanWarning(t@),
            ScanMessage::Complete(p) => ScanMessageView::Complete(p.deep_view()),
        }
    }
}

/// Marks, in a warning, that the official repositories could not be scanned.
pub const OFFICIAL_SCAN_FAILURE_MARKER: &'static str = "Official";

/// Marks, in a warning, that the AUR could not be scanned.
pub const AUR_SCAN_FAILURE_MARKER: &'static str = "AUR";

/// `"s"` unless `count` is one.
pub open spec fn plural_suffix(count: nat) -> Seq<char> {
    if count == 1 {
        Seq::empty()
    } else {
        "s"@
    }
}

/// The status line that says how many updates a source has.
pub open spec fn found_text(count: nat, source: Seq<char>) -> Seq<char> {
    "Found "@ + decimal(count) + " "@ + source + " update"@ + plural_suffix(count)
}

/// The status line that closes a scan.
pub open spec fn total_text(total: nat) -> Seq<char> {
    "Scan complete. Total: "@ + decimal(total) + " update"@ + plural_suffix(total)
}

/// The status line for one more try of `checkupdates`.
pub open spec fn retry_text(attempt: nat, max: nat) -> Seq<char> {
    "Retrying checkupdates (attempt "@ + decimal(attempt) + "/"@ + decimal(max) + ")"@
}

/// The status line for a source that could not be scanned.
pub open spec fn failure_text(what: Seq<char>, reason: Seq<char>) -> Seq<char> {
    "Warning: Could not scan "@ + what + ": "@ + reason
}

/// The warning that names the sources that could not be scanned. At least
/// one of the two has failed when it is sent.
pub open spec fn warning_text(official_failed: bool, aur_failed: bool) -> Seq<char> {
    if official_failed && aur_failed {
        OFFICIAL_SCAN_FAILURE_MARKER@ + " & "@ + AUR_SCAN_FAILURE_MARKER@ + " scan failed"@
    } else if official_failed {
        OFFICIAL_SCAN_FAILURE_MARKER@ + " scan failed"@
    } else {
        AUR_SCAN_FAILURE_MARKER@ + " scan failed"@
    }
}

fn found_message(count: usize, source: &str) -> (m: ScanMessage)
    ensures
        m@ == ScanMessageView::Progress(found_text(count as nat, source@)),
{
    let mut t = "Found ".to_string();
    push_decimal(&mut t, count);
    t.append(" ");
    t.append(source);
    t.append(" update");
    if count != 1 {
        t.append("s");
    }
    assert(t@ =~= found_text(count as nat, source@));
    ScanMessage::Progress(t)
}

fn total_message(total: usize) -> (m: ScanMessage)
    ensures
        m@ == ScanMessageView::Progress(total_text(total as nat)),
{
    let mut t = "Scan complete. Total: ".to_string();
    push_decimal(&mut t, total);
    t.append(" update");
    if total != 1 {
        t.append("s");
    }
    assert(t@ =~= total_text(total as nat));
    ScanMessage::Progress(t)
}

fn failure_message(what: &str, reason: &str) -> (m: ScanMessage)
    ensures
        m@ == ScanMessageView::Progress(failure_text(what@, reason@)),
{
    let mut t = "Warning: Could not scan ".to_string();
    t.append(what);
    t.append(": ");
    t.append(reason);
    ScanMessage::Progress(t)
}

fn warning_message(official_failed: bool, aur_failed: bool) -> (m: ScanMessage)
    ensures
        m@ == ScanMessageView::ScanWarning(warning_text(official_failed, aur_failed)),
{
    let mut t = String::new();
    if official_failed {
        t.append(OFFICIAL_SCAN_FAILURE_MARKER);
        if aur_failed {
            t.append(" & ");
            t.append(AUR_SCAN_FAILURE_MARKER);
        }
    } else {
        t.append(AUR_SCAN_FAILURE_MARKER);
    }
    t.append(" scan failed");
    assert(t@ =~= warning_text(official_failed, aur_failed));
    ScanMessage::ScanWarning(t)
}

/// The status line to show before `checkupdates` is tried again, after
/// try number `attempt` of `max` has failed.
pub fn retry_message(attempt: u32, max: u32) -> (m: ScanMessage)
    ensures
        m@ == ScanMessageView::Progress(retry_text(attempt as nat, max as nat)),
{
    let mut t = "Retrying checkupdates (attempt ".to_string();
    push_decimal(&mut t, attempt as usize);
    t.append("/");
    push_decimal(&mut t, max as usize);
    t.append(")");
    ScanMessage::Progress(t)
}

/// What the worker waits for.
#[derive(Debug, Clone, Copy, PartialEq, Eq, Structural)]
pub enum ScanPhase {
    /// Nothing has happened yet.
    Idle,
    /// The scan of the official repositories is being announced.
    AnnouncingOfficial,
    /// `checkupdates` is running.
    QueryingOfficial,
    /// The outcome of the official scan is being reported.
    ReportingOfficial,
    /// The scan of the AUR is being announced.
    AnnouncingAur,
    /// `paru` is running.
    QueryingAur,
    /// The outcome of the AUR scan is being reported.
    ReportingAur,
    /// The total is being reported.
    Summarising,
    /// The warning about failed sources is being sent.
    Warning,
    /// The result is being handed over.
    Completing,
    /// The worker has nothing more to do.
    Finished,
}

/// What the driver tells the worker.
pub enum ScanEvent {
    /// The worker was started; `cancelled` is the cancellation flag as read
    /// then.
    Started { cancelled: bool },
    /// The message of the last `Send` was handed to the channel. `delivered`
    /// is false when the receiver is gone; `cancelled` is the cancellation
    /// flag as read after the send.
    Sent { delivered: bool, cancelled: bool },
    /// `checkupdates` has ended: its output, or why it failed.
    OfficialResult(Result<String, String>),
    /// `paru` has ended: its output, or why it failed.
    AurResult(Result<String, String>),
}

/// A `ScanEvent` with every text as a sequence of characters.
pub enum ScanEventView {
    Started { cancelled: bool },
    Sent { delivered: bool, cancelled: bool },
    OfficialResult(Result<Seq<char>, Seq<char>>),
    AurResult(Result<Seq<char>, Seq<char>>),
}

/// The view of what a query returned.
pub open spec fn outcome_view(r: Result<String, String>) -> Result<Seq<char>, Seq<char>> {
    match r {
        Ok(t) => Ok(t@),
        Err(t) => Err(t@),
    }
}

impl View for ScanEvent {
    type V = ScanEventView;

    open spec fn view(&self) -> ScanEventView {
        match *self {
            ScanEvent::Started { cancelled } => ScanEventView::Started { cancelled },
            ScanEvent::Sent { delivered, cancelled } => ScanEventView::Sent {
                delivered,
                cancelled,
            },
            ScanEvent::OfficialResult(r) => ScanEventView::OfficialResult(outcome_view(r)),
            ScanEvent::AurResult(r) => ScanEventView::AurResult(outcome_view(r)),
        }
    }
}

/// What the worker asks the driver to do next.
pub enum ScanAction {
    /// Send this message, then report `Sent`.
    Send(ScanMessage),
    /// Run `checkupdates`, then report `OfficialResult`.
    QueryOfficial,
    /// Run `paru`, then report `AurResult`.
    QueryAur,
    /// End the worker.
    Stop,
}

/// A `ScanAction` with every text as a sequence of characters.
pub enum ScanActionView {
    Send(ScanMessageView),
    QueryOfficial,
    QueryAur,
    Stop,
}

impl View for ScanAction {
    type V = ScanActionView;

    open spec fn view(&self) -> ScanActionView {
        match *self {
            ScanAction::Send(m) => ScanActionView::Send(m@),
            ScanAction::QueryOfficial => ScanActionView::QueryOfficial,
            ScanAction::QueryAur => ScanActionView::QueryAur,
            ScanAction::Stop => ScanActionView::Stop,
        }
    }
}

/// The state of one scan.
pub struct ScanWorker {
    pub phase: ScanPhase,
    /// Whether the AUR is scanned at all.
    pub has_paru: bool,
    /// The updates found so far, official ones first.
    pub packages: Vec<Package>,
    pub official_failed: bool,
    pub aur_failed: bool,
}

/// A `ScanWorker` with its packages by their views.
pub struct ScanWorkerView {
    pub phase: ScanPhase,
    pub has_paru: bool,
    pub packages: Seq<PackageView>,
    pub official_failed: bool,
    pub aur_failed: bool,
}

impl View for ScanWorker {
    type V = ScanWorkerView;

    open spec fn view(&self) -> ScanWorkerView {
        ScanWorkerView {
            phase: self.phase,
            has_paru: self.has_paru,
            packages: self.packages.deep_view(),
            official_failed: self.official_failed,
            aur_failed: self.aur_failed,
        }
    }
}

/// The worker that has ended, for whatever reason.
pub open spec fn stopped(w: ScanWorkerView) -> (ScanWorkerView, ScanActionView) {
    (ScanWorkerView { phase: ScanPhase::Finished, ..w }, ScanActionView::Stop)
}

/// The worker in a new phase, sending a status line.
pub open spec fn reporting(w: ScanWorkerView, phase: ScanPhase, line: Seq<char>) -> (
    ScanWorkerView,
    ScanActionView,
) {
    (ScanWorkerView { phase, ..w }, ScanActionView::Send(ScanMessageView::Progress(line)))
}

/// The step that closes the scan of the sources: the total, unless the scan
/// was cancelled.
pub open spec fn summarise(w: ScanWorkerView, cancelled: bool) -> (ScanWorkerView, ScanActionView) {
    if cancelled {
        stopped(w)
    } else {
        reporting(w, ScanPhase::Summarising, total_text(w.packages.len()))
    }
}

/// The step that hands the result over. The packages leave the worker.
pub open spec fn complete(w: ScanWorkerView) -> (ScanWorkerView, ScanActionView) {
    (
        ScanWorkerView { phase: ScanPhase::Completing, packages: Seq::empty(), ..w },
        ScanActionView::Send(ScanMessageView::Complete(w.packages)),
    )
}

/// The worker's rule: the state after `event`, and what the driver is to do
/// next. An event that the phase does not wait for ends the worker, and so
/// does a message that could not be delivered.
pub open spec fn advance(w: ScanWorkerView, event: ScanEventView) -> (
    ScanWorkerView,
    ScanActionView,
) {
    match (w.phase, event) {
        (ScanPhase::Idle, ScanEventView::Started { cancelled }) => {
            if cancelled {
                stopped(w)
            } else {
                reporting(w, ScanPhase::AnnouncingOfficial, "Scanning official repositories..."@)
            }
        },
        (_, ScanEventView::Sent { delivered: false, .. }) => stopped(w),
        (ScanPhase::AnnouncingOfficial, ScanEventView::Sent { .. }) => (
            ScanWorkerView { phase: ScanPhase::QueryingOfficial, ..w },
            ScanActionView::QueryOfficial,
        ),
        (ScanPhase::QueryingOfficial, ScanEventView::OfficialResult(Ok(output))) => {
            let found = parse_updates(output, PackageRepository::Official);
            reporting(
                ScanWorkerView { packages: w.packages + found, ..w },
                ScanPhase::ReportingOfficial,
                found_text(found.len(), "official"@),
            )
        },
        (ScanPhase::QueryingOfficial, ScanEventView::OfficialResult(Err(reason))) => reporting(
            ScanWorkerView { official_failed: true, ..w },
            ScanPhase::ReportingOfficial,
            failure_text("official repos"@, reason),
        ),
        (ScanPhase::ReportingOfficial, ScanEventView::Sent { cancelled, .. }) => {
            if w.has_paru && !cancelled {
                reporting(w, ScanPhase::AnnouncingAur, "Scanning AUR packages..."@)
            } else {
                summarise(w, cancelled)
            }
        },
        (ScanPhase::AnnouncingAur, ScanEventView::Sent { .. }) => (
            ScanWorkerView { phase: ScanPhase::QueryingAur, ..w },
            ScanActionView::QueryAur,
        ),
        (ScanPhase::QueryingAur, ScanEventView::AurResult(Ok(output))) => {
            let found = parse_updates(output, PackageRepository::Aur);
            reporting(
                ScanWorkerView { packages: w.packages + found, ..w },
                ScanPhase::ReportingAur,
                found_text(found.len(), "AUR"@),
            )
        },
        (ScanPhase::QueryingAur, ScanEventView::AurResult(Err(reason))) => reporting(
            ScanWorkerView { aur_failed: true, ..w },
            ScanPhase::ReportingAur,
            failure_text("AUR packages"@, reason),
        ),
        (ScanPhase::ReportingAur, ScanEventView::Sent { cancelled, .. }) => summarise(w, cancelled),
        (ScanPhase::Summarising, ScanEventView::Sent { .. }) => {
            if w.official_failed || w.aur_failed {
                (
                    ScanWorkerView { phase: ScanPhase::Warning, ..w },
                    ScanActionView::Send(
                        ScanMessageView::ScanWarning(warning_text(w.official_failed, w.aur_failed)),
                    ),
                )
            } else {
                complete(w)
            }
        },
        (ScanPhase::Warning, ScanEventView::Sent { .. }) => complete(w),
        _ => stopped(w),
    }
}

impl ScanWorker {
    /// A worker that has not started. `has_paru` says whether the AUR is to
    /// be scanned too.
    pub fn new(has_paru: bool) -> (w: Self)
        ensures
            w@ == (ScanWorkerView {
                phase: ScanPhase::Idle,
                has_paru,
                packages: Seq::empty(),
                official_failed: false,
                aur_failed: false,
            }),
    {
        let w = ScanWorker {
            phase: ScanPhase::Idle,
            has_paru,
            packages: Vec::new(),
            official_failed: false,
            aur_failed: false,
        };
        assert(w.packages.deep_view() =~= Seq::<PackageView>::empty());
        w
    }

    fn stop(&mut self) -> (action: ScanAction)
        ensures
            (final(self)@, action@) == stopped(old(self)@),
    {
        self.phase = ScanPhase::Finished;
        ScanAction::Stop
    }

    fn summary(&mut self, cancelled: bool) -> (action: ScanAction)
        ensures
            (final(self)@, action@) == summarise(old(self)@, cancelled),
    {
        if cancelled {
            self.stop()
        } else {
            self.phase = ScanPhase::Summarising;
            ScanAction::Send(total_message(self.packages.len()))
        }
    }

    fn hand_over(&mut self) -> (action: ScanAction)
        ensures
            (final(self)@, action@) == complete(old(self)@),
    {
        let mut found: Vec<Package> = Vec::new();
        core::mem::swap(&mut self.packages, &mut found);
        self.phase = ScanPhase::Completing;
        assert(self.packages.deep_view() =~= Seq::<PackageView>::empty());
        ScanAction::Send(ScanMessage::Complete(found))
    }

    fn take_in(&mut self, found: Vec<Package>)
        ensures
            final(self)@ == (ScanWorkerView {
                packages: old(self)@.packages + found.deep_view(),
                ..old(self)@
            }),
    {
        let mut found = found;
        let ghost added = found.deep_view();
        self.packages.append(&mut found);
        assert(self.packages.deep_view() =~= old(self)@.packages + added);
    }

    /// Takes the next event and decides what follows, by the rule `advance`.
    pub fn step(&mut self, event: ScanEvent) -> (action: ScanAction)
        ensures
            (final(self)@, action@) == advance(old(self)@, event@),
    {
        match event {
            ScanEvent::Started { cancelled } => match self.phase {
                ScanPhase::Idle => {
                    if cancelled {
                        self.stop()
                    } else {
                        self.phase = ScanPhase::AnnouncingOfficial;
                        ScanAction::Send(
                            ScanMessage::Progress("Scanning official repositories...".to_string()),
                        )
                    }
                },
                _ => self.stop(),
            },
            ScanEvent::Sent { delivered, cancelled } => {
                if !delivered {
                    return self.stop();
                }
                match self.phase {
                    ScanPhase::AnnouncingOfficial => {
                        self.phase = ScanPhase::QueryingOfficial;
                        ScanAction::QueryOfficial
                    },
                    ScanPhase::ReportingOfficial => {
                        if self.has_paru && !cancelled {
                            self.phase = ScanPhase::AnnouncingAur;
                            ScanAction::Send(
                                ScanMessage::Progress("Scanning AUR packages...".to_string()),
                            )
                        } else {
                            self.summary(cancelled)
                        }
                    },
                    ScanPhase::AnnouncingAur => {
                        self.phase = ScanPhase::QueryingAur;
                        ScanAction::QueryAur
                    },
                    ScanPhase::ReportingAur => self.summary(cancelled),
                    ScanPhase::Summarising => {
                        if self.official_failed || self.aur_failed {
                            self.phase = ScanPhase::Warning;
                            ScanAction::Send(
                                warning_message(self.official_failed, self.aur_failed),
                            )
                        } else {
                            self.hand_over()
                        }
                    },
                    ScanPhase::Warning => self.hand_over(),
                    _ => self.stop(),
                }
            },
            ScanEvent::OfficialResult(outcome) => match self.phase {
                ScanPhase::QueryingOfficial => {
                    self.phase = ScanPhase::ReportingOfficial;
                    match outcome {
                        Ok(output) => {
                            let found = parse_checkupdates_output(output.as_str());
                            let message = found_message(found.len(), "official");
                            self.take_in(found);
                            ScanAction::Send(message)
                        },
                        Err(reason) => {
                            self.official_failed = true;
                            ScanAction::Send(failure_message("official repos", reason.as_str()))
                        },
                    }
                },
                _ => self.stop(),
            },
            ScanEvent::AurResult(outcome) => match self.phase {
                ScanPhase::QueryingAur => {
                    self.phase = ScanPhase::ReportingAur;
                    match outcome {
                        Ok(output) => {
                            let found = parse_paru_output(output.as_str());
                            let message = found_message(found.len(), "AUR");
                            self.take_in(found);
                            ScanAction::Send(message)
                        },
                        Err(reason) => {
                            self.aur_failed = true;
                            ScanAction::Send(failure_message("AUR packages", reason.as_str()))
                        },
                    }
                },
                _ => self.stop(),
            },
        }
    }
}

/// The worker after it has taken `events` one after the other, and the
/// messages it asked to have sent on the way, in order.
pub open spec fn run(w: ScanWorkerView, events: Seq<ScanEventView>) -> (
    ScanWorkerView,
    Seq<ScanMessageView>,
)
    decreases events.len(),
{
    if events.len() == 0 {
        (w, Seq::empty())
    } else {
        let (next, action) = advance(w, events[0]);
        let (last, later) = run(next, events.drop_first());
        (
            last,
            match action {
                ScanActionView::Send(m) => seq![m] + later,
                _ => later,
            },
        )
    }
}

/// Once the result is handed over, or the worker has ended, no event makes
/// it send anything again.
pub proof fn lemma_silent_after_end(w: ScanWorkerView, events: Seq<ScanEventView>)
    requires
        w.phase == ScanPhase::Finished || w.phase == ScanPhase::Completing,
    ensures
        run(w, events).1 == Seq::<ScanMessageView>::empty(),
        events.len() > 0 ==> run(w, events).0.phase == ScanPhase::Finished,
    decreases events.len(),
{
    if events.len() > 0 {
        let (next, action) = advance(w, events[0]);
        assert(next.phase == ScanPhase::Finished);
        assert(action == ScanActionView::Stop);
        lemma_silent_after_end(next, events.drop_first());
    }
}

/// The receiver-driven end: when a message could not be delivered, the
/// worker ends at once and sends nothing more, whatever follows.
pub proof fn lemma_lost_receiver_ends_scan(
    w: ScanWorkerView,
    cancelled: bool,
    later: Seq<ScanEventView>,
)
    ensures
        advance(w, ScanEventView::Sent { delivered: false, cancelled }) == stopped(w),
        run(w, seq![ScanEventView::Sent { delivered: false, cancelled }] + later).1 == Seq::<
            ScanMessageView,
        >::empty(),
{
    let events = seq![ScanEventView::Sent { delivered: false, cancelled }] + later;
    assert(events.drop_first() =~= later);
    lemma_silent_after_end(stopped(w).0, later);
}

/// Cancellation: where the worker looks at the flag and finds it set (at
/// the start, and after the report on either source), it ends at once and
/// sends nothing more, whatever follows.
pub proof fn lemma_cancellation_ends_scan(
    w: ScanWorkerView,
    event: ScanEventView,
    later: Seq<ScanEventView>,
)
    requires
        (w.phase == ScanPhase::Idle && event == ScanEventView::Started { cancelled: true }) || ((
            w.phase == ScanPhase::ReportingOfficial || w.phase == ScanPhase::ReportingAur)
            && event matches ScanEventView::Sent { cancelled: true, .. }),
    ensures
        advance(w, event) == stopped(w),
        run(w, seq![event] + later).1 == Seq::<ScanMessageView>::empty(),
{
    let events = seq![event] + later;
    assert(events.drop_first() =~= later);
    lemma_silent_after_end(stopped(w).0, later);
}

/// `Complete` ends the protocol: in no run does a message follow it.
pub proof fn lemma_complete_is_last(w: ScanWorkerView, events: Seq<ScanEventView>, i: int)
    requires
        0 <= i < run(w, events).1.len(),
        run(w, events).1[i] is Complete,
    ensures
        i == run(w, events).1.len() - 1,
    decreases events.len(),
{
    let (next, action) = advance(w, events[0]);
    let later = run(next, events.drop_first()).1;
    match action {
        ScanActionView::Send(m) => {
            if i == 0 {
                assert(next.phase == ScanPhase::Completing);
                lemma_silent_after_end(next, events.drop_first());
            } else {
                assert(run(w, events).1[i] == later[i - 1]);
                lemma_complete_is_last(next, events.drop_first(), i - 1);
            }
        },
        _ => {
            lemma_complete_is_last(next, events.drop_first(), i);
        },
    }
}

/// A warning comes right before the result: whatever is sent after a
/// warning is the result of the scan.
pub proof fn lemma_warning_precedes_complete(
    w: ScanWorkerView,
    events: Seq<ScanEventView>,
    i: int,
)
    requires
        0 <= i < run(w, events).1.len() - 1,
        run(w, events).1[i] is ScanWarning,
    ensures
        run(w, events).1[i + 1] is Complete,
    decreases events.len(),
{
    let (next, action) = advance(w, events[0]);
    let rest = events.drop_first();
    let later = run(next, rest).1;
    match action {
        ScanActionView::Send(m) => {
            if i == 0 {
                assert(next.phase == ScanPhase::Warning);
                lemma_first_message_after_warning(next, rest);
            } else {
                assert(run(w, events).1[i] == later[i - 1]);
                assert(run(w, events).1[i + 1] == later[i]);
                lemma_warning_precedes_complete(next, rest, i - 1);
            }
        },
        _ => {
            lemma_warning_precedes_complete(next, rest, i);
        },
    }
}

/// After the warning was sent, the first message to follow, if any, is the
/// result.
proof fn lemma_first_message_after_warning(w: ScanWorkerView, events: Seq<ScanEventView>)
    requires
        w.phase == ScanPhase::Warning,
    ensures
        run(w, events).1.len() > 0 ==> run(w, events).1[0] is Complete,
    decreases events.len(),
{
    if events.len() > 0 {
        let (next, action) = advance(w, events[0]);
        match action {
            ScanActionView::Send(m) => {},
            _ => {
                assert(next.phase == ScanPhase::Finished);
                lemma_silent_after_end(next, events.drop_first());
            },
        }
    }
}

/// The result is owed: once the total is reported, two more deliveries
/// bring the result with everything that was found, after the warning if
/// a source failed.
pub proof fn lemma_summary_is_followed_by_result(w: ScanWorkerView)
    requires
        w.phase == ScanPhase::Summarising,
    ensures
        ({
            let sent = ScanEventView::Sent { delivered: true, cancelled: false };
            let messages = run(w, seq![sent, sent]).1;
            if w.official_failed || w.aur_failed {
                messages == seq![
                    ScanMessageView::ScanWarning(warning_text(w.official_failed, w.aur_failed)),
                    ScanMessageView::Complete(w.packages),
                ]
            } else {
                messages == seq![ScanMessageView::Complete(w.packages)]
            }
        }),
{
    let sent = ScanEventView::Sent { delivered: true, cancelled: false };
    let e0 = seq![sent, sent];
    let e1 = e0.drop_first();
    let e2 = e1.drop_first();
    let w1 = advance(w, e0[0]).0;
    let w2 = advance(w1, e1[0]).0;
    assert(e2.len() == 0);
    assert(run(w2, e2).1 =~= Seq::<ScanMessageView>::empty());
    if w.official_failed || w.aur_failed {
        assert(run(w1, e1).1 =~= seq![ScanMessageView::Complete(w.packages)]);
        assert(run(w, e0).1 =~= seq![
            ScanMessageView::ScanWarning(warning_text(w.official_failed, w.aur_failed)),
            ScanMessageView::Complete(w.packages),
        ]);
    } else {
        assert(run(w1, e1).1 =~= Seq::<ScanMessageView>::empty());
        assert(run(w, e0).1 =~= seq![ScanMessageView::Complete(w.packages)]);
    }
}

/// The events of a scan in which every message is delivered, nothing is
/// cancelled and both sources answer.
pub open spec fn undisturbed_scan(official: Seq<char>, aur: Seq<char>) -> Seq<ScanEventView> {
    let sent = ScanEventView::Sent { delivered: true, cancelled: false };
    seq![
        ScanEventView::Started { cancelled: false },
        sent,
        ScanEventView::OfficialResult(Ok(official)),
        sent,
        sent,
        ScanEventView::AurResult(Ok(aur)),
        sent,
        sent,
    ]
}

/// Merging: an undisturbed scan of both sources ends by handing over the
/// official updates followed by the AUR updates, each tagged with its
/// source and none dropped, after the status lines in their fixed order.
pub proof fn lemma_scan_merges_sources(official: Seq<char>, aur: Seq<char>)
    ensures
        run(
            ScanWorkerView {
                phase: ScanPhase::Idle,
                has_paru: true,
                packages: Seq::empty(),
                official_failed: false,
                aur_failed: false,
            },
            undisturbed_scan(official, aur),
        ).1 == ({
            let a = parse_updates(official, PackageRepository::Official);
            let b = parse_updates(aur, PackageRepository::Aur);
            seq![
                ScanMessageView::Progress("Scanning official repositories..."@),
                ScanMessageView::Progress(found_text(a.len(), "official"@)),
                ScanMessageView::Progress("Scanning AUR packages..."@),
                ScanMessageView::Progress(found_text(b.len(), "AUR"@)),
                ScanMessageView::Progress(total_text(a.len() + b.len())),
                ScanMessageView::Complete(a + b),
            ]
        }),
{
    let w0 = ScanWorkerView {
        phase: ScanPhase::Idle,
        has_paru: true,
        packages: Seq::empty(),
        official_failed: false,
        aur_failed: false,
    };
    let e0 = undisturbed_scan(official, aur);
    let a = parse_updates(official, PackageRepository::Official);
    let b = parse_updates(aur, PackageRepository::Aur);
    let e1 = e0.drop_first();
    let e2 = e1.drop_first();
    let e3 = e2.drop_first();
    let e4 = e3.drop_first();
    let e5 = e4.drop_first();
    let e6 = e5.drop_first();
    let e7 = e6.drop_first();
    let e8 = e7.drop_first();
    let w1 = advance(w0, e0[0]).0;
    let w2 = advance(w1, e1[0]).0;
    let w3 = advance(w2, e2[0]).0;
    let w4 = advance(w3, e3[0]).0;
    let w5 = advance(w4, e4[0]).0;
    let w6 = advance(w5, e5[0]).0;
    let w7 = advance(w6, e6[0]).0;
    let w8 = advance(w7, e7[0]).0;
    assert(Seq::<PackageView>::empty() + a =~= a);
    assert(e8.len() == 0);
    assert(run(w8, e8).1 =~= Seq::<ScanMessageView>::empty());
    assert(run(w7, e7).1 =~= seq![ScanMessageView::Complete(a + b)]);
    assert(run(w6, e6).1 =~= seq![
        ScanMessageView::Progress(total_text(a.len() + b.len())),
        ScanMessageView::Complete(a + b),
    ]);
    assert(run(w5, e5).1 =~= seq![
        ScanMessageView::Progress(found_text(b.len(), "AUR"@)),
        ScanMessageView::Progress(total_text(a.len() + b.len())),
        ScanMessageView::Complete(a + b),
    ]);
    assert(run(w4, e4).1 =~= run(w5, e5).1);
    assert(run(w3, e3).1 =~= seq![ScanMessageView::Progress("Scanning AUR packages..."@)] + run(
        w4,
        e4,
    ).1);
    assert(run(w2, e2).1 =~= seq![ScanMessageView::Progress(found_text(a.len(), "official"@))]
        + run(w3, e3).1);
    assert(run(w1, e1).1 =~= run(w2, e2).1);
    assert(run(w0, e0).1 =~= seq![ScanMessageView::Progress("Scanning official repositories..."@)]
        + run(w1, e1).1);
}

/// A warning names exactly the sources that failed: the marker of a source
/// occurs in it if and only if that source could not be scanned.
pub proof fn lemma_warning_names_failed_sources(official_failed: bool, aur_failed: bool)
    requires
        official_failed || aur_failed,
    ensures
        contains_text(warning_text(official_failed, aur_failed), OFFICIAL_SCAN_FAILURE_MARKER@)
            <==> official_failed,
        contains_text(warning_text(official_failed, aur_failed), AUR_SCAN_FAILURE_MARKER@)
            <==> aur_failed,
{
    reveal_strlit("Official");
    reveal_strlit("AUR");
    reveal_strlit(" & ");
    reveal_strlit(" scan failed");
    let t = warning_text(official_failed, aur_failed);
    let o = OFFICIAL_SCAN_FAILURE_MARKER@;
    let a = AUR_SCAN_FAILURE_MARKER@;
    assert(o =~= seq!['O', 'f', 'f', 'i', 'c', 'i', 'a', 'l']);
    assert(a =~= seq!['A', 'U', 'R']);
    if official_failed {
        assert(t.subrange(0int, 0int + o.len()) =~= o);
    } else {
        assert forall|i: int| 0 <= i && i + o.len() <= t.len() implies #[trigger] t.subrange(
            i,
            i + o.len(),
        ) != o by {
            assert(t.subrange(i, i + o.len())[0] == t[i]);
        }
    }
    if aur_failed {
        if official_failed {
            assert(t.subrange(11int, 11int + a.len()) =~= a);
        } else {
            assert(t.subrange(0int, 0int + a.len()) =~= a);
        }
    } else {
        assert forall|i: int| 0 <= i && i + a.len() <= t.len() implies #[trigger] t.subrange(
            i,
            i + a.len(),
        ) != a by {
            assert(t.subrange(i, i + a.len())[0] == t[i]);
        }
    }
}

} // verus!
