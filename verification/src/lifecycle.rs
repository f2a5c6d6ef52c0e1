//! What happens around the window: at startup, on the run loop's events, and
//! on the clock of the background update checks.
use vstd::prelude::*;
use crate::dev_backend::DevBackend;
use crate::update::{Effect, UpdateState};

verus! {

/// The window's name.
pub const MAIN_WINDOW: &'static str = "main";

/// The page that the window opens with.
pub const START_PAGE: &'static str = "shell.html";

/// The window's title.
pub const WINDOW_TITLE: &'static str = "WordPuppi";

/// The marker that lets the page offer other environments than production.
pub const DEBUG_MARKER: &'static str = "window.__WPP_DEBUG__ = true;";

/// What the application was built as.
#[derive(Clone, Copy, PartialEq, Eq, Structural, Debug)]
pub struct Build {
    pub debug: bool,
    pub macos: bool,
}

/// What startup does beyond opening the window and its menu.
#[derive(Clone, Copy, PartialEq, Eq, Structural, Debug)]
pub struct Startup {
    /// Look after a local backend.
    pub dev_backend: bool,
    /// Set the icon in the Dock, which an unpackaged application lacks.
    pub dock_icon: bool,
    /// Let the page draw the title bar.
    pub overlay_title_bar: bool,
    /// Inject the debug marker into the page.
    pub debug_marker: bool,
    /// Check for updates in the background.
    pub background_checks: bool,
}

/// What startup does in `build`. Local servers, icons and markers are for
/// debug builds; update checks are for packaged ones, which alone are signed.
pub fn startup(build: Build) -> (r: Startup)
    ensures
        r.dev_backend == build.debug,
        r.dock_icon == (build.debug && build.macos),
        r.overlay_title_bar == build.macos,
        r.debug_marker == build.debug,
        r.background_checks == !build.debug,
{
    Startup {
        dev_backend: build.debug,
        dock_icon: build.debug && build.macos,
        overlay_title_bar: build.macos,
        debug_marker: build.debug,
        background_checks: !build.debug,
    }
}

/// What the run loop reports.
#[derive(Clone, Copy, PartialEq, Eq, Structural, Debug)]
pub enum RunEvent {
    Ready,
    Exit,
    Other,
}

/// What to do about it.
#[derive(Clone, Copy, PartialEq, Eq, Structural, Debug)]
pub enum RunAction {
    /// Bring the main window to the front.
    FocusMain,
    /// Stop the local backend that runs as `child`.
    StopBackend { child: u32 },
    Nothing,
}

/// What `event` does in a build, where `backend` is what there is to stop.
pub open spec fn run_action(event: RunEvent, debug: bool, backend: DevBackend) -> RunAction {
    match event {
        RunEvent::Ready => RunAction::FocusMain,
        RunEvent::Exit => match backend.child {
            Some(child) if debug => RunAction::StopBackend { child },
            _ => RunAction::Nothing,
        },
        RunEvent::Other => RunAction::Nothing,
    }
}

/// What there is left to stop after `event`.
pub open spec fn backend_after(event: RunEvent, debug: bool, backend: DevBackend) -> DevBackend {
    if event is Exit && debug {
        DevBackend::not_ours()
    } else {
        backend
    }
}

/// Decides about an event of the run loop: a window that is ready comes to the
/// front, and a debug build that exits stops the backend that it started.
pub fn on_run_event(event: RunEvent, debug: bool, backend: &mut DevBackend) -> (r: RunAction)
    ensures
        r == run_action(event, debug, *old(backend)),
        *final(backend) == backend_after(event, debug, *old(backend)),
{
    match event {
        RunEvent::Ready => RunAction::FocusMain,
        RunEvent::Exit => {
            if debug {
                match backend.take() {
                    Some(child) => RunAction::StopBackend { child },
                    None => RunAction::Nothing,
                }
            } else {
                RunAction::Nothing
            }
        },
        RunEvent::Other => RunAction::Nothing,
    }
}

/// The pause after the first background check, in seconds: an hour.
pub const FIRST_PAUSE: u64 = 3600;

/// The pause after every later background check, in seconds: a day.
pub const LATER_PAUSE: u64 = 86400;

/// The background checks of one run of the application.
#[derive(Clone, Copy, PartialEq, Eq, Structural, Debug)]
pub struct Schedule {
    /// Whether the first check has been made.
    pub begun: bool,
}

/// How long to wait after a check, in seconds: `begun` tells whether another
/// came before it.
pub open spec fn pause(begun: bool) -> u64 {
    if begun {
        LATER_PAUSE
    } else {
        FIRST_PAUSE
    }
}

/// When the check number `k`, counted from 0, is made, in seconds after startup and leaving out
/// the time that the checks take.
pub open spec fn check_time(k: nat) -> nat
    decreases k,
{
    if k == 0 {
        0
    } else {
        check_time((k - 1) as nat) + pause(k - 1 > 0) as nat
    }
}

impl Schedule {
    /// No check has been made; the first is due at once.
    pub fn new() -> (r: Self)
        ensures
            !r.begun,
    {
        Schedule { begun: false }
    }

    /// A check was requested: how many seconds to wait for the next.
    pub fn next_pause(&mut self) -> (r: u64)
        ensures
            r == pause(old(self).begun),
            !old(self).begun ==> r == 3600,
            old(self).begun ==> r == 86400,
            final(self).begun,
    {
        let pause: u64 = if self.begun {
            LATER_PAUSE
        } else {
            FIRST_PAUSE
        };
        self.begun = true;
        pause
    }

    /// A check is due: requests it, in the background, and says how many
    /// seconds to wait for the next.
    pub fn tick(&mut self, updates: &mut UpdateState<String>) -> (r: (Vec<Effect<String>>, u64))
        ensures
            (final(updates)@, crate::update::effects_of(r.0@)) == old(updates)@.started(false),
            old(updates)@.well_formed() ==> final(updates)@.well_formed(),
            r.1 == pause(old(self).begun),
            !old(self).begun ==> r.1 == 3600,
            old(self).begun ==> r.1 == 86400,
            final(self).begun,
    {
        let effects: Vec<Effect<String>> = updates.spawn_update_check(false);
        (effects, self.next_pause())
    }
}

/// The checks come at once, an hour later, and every day from then on.
pub proof fn law_check_times(k: nat)
    ensures
        check_time(0) == 0,
        check_time(k + 1) == 3600 + 86400 * k,
    decreases k,
{
    if k > 0 {
        law_check_times((k - 1) as nat);
    }
}

/// Only a backend that the application started is ever stopped, by its own
/// process id, and it is stopped once.
pub proof fn law_only_our_backend_is_stopped(
    event: RunEvent,
    again: RunEvent,
    debug: bool,
    backend: DevBackend,
)
    ensures
        run_action(event, debug, DevBackend::not_ours()) !is StopBackend,
        run_action(event, debug, backend) matches RunAction::StopBackend { child } ==> {
            &&& debug
            &&& backend.child == Some(child)
            &&& run_action(again, debug, backend_after(event, debug, backend)) !is StopBackend
        },
{
}

/// The first pause is an hour, every later one a day.
pub proof fn law_pauses(begun: bool)
    ensures
        begun ==> pause(begun) == 24 * 60 * 60,
        !begun ==> pause(begun) == 60 * 60,
{
}

/// The window comes to the front exactly when the run loop is ready; a backend
/// is stopped exactly when a debug build exits that has one to stop, and it is
/// that one. Only such an exit leaves nothing to stop.
pub proof fn law_run_events(event: RunEvent, debug: bool, backend: DevBackend)
    ensures
        run_action(event, debug, backend) is FocusMain <==> event is Ready,
        run_action(event, debug, backend) is StopBackend <==> event is Exit && debug
            && backend.child is Some,
        run_action(event, debug, backend) matches RunAction::StopBackend { child }
            ==> backend.child == Some(child),
        event is Exit && debug ==> backend_after(event, debug, backend).child is None,
        !(event is Exit && debug) ==> backend_after(event, debug, backend) == backend,
{
}

/// A packaged build checks for updates and does nothing that is meant for
/// development; a debug build the other way round. The page draws the title bar
/// on macOS, in every build.
pub proof fn law_builds_start_as_they_should(build: Build, r: Startup)
    requires
        call_ensures(startup, (build,), r),
    ensures
        r.background_checks <==> !build.debug,
        r.dev_backend <==> build.debug,
        r.debug_marker <==> build.debug,
        r.dock_icon <==> build.debug && build.macos,
        r.overlay_title_bar <==> build.macos,
{
}

/// What the run loop's events do to the window and to the backend.
pub proof fn law_run_events_are_followed()
    ensures
        forall|event: RunEvent, debug: bool, backend: &mut DevBackend, r: RunAction| #[trigger]
            call_ensures(on_run_event, (event, debug, backend), r) ==> {
                &&& r is FocusMain <==> event is Ready
                &&& r is StopBackend <==> event is Exit && debug && backend.child is Some
                &&& r matches RunAction::StopBackend { child } ==> backend.child == Some(child)
                &&& event is Exit && debug ==> final(backend).child is None
                &&& !(event is Exit && debug) ==> final(backend).child == backend.child
            },
{
}

/// The clock of the background checks: each tick asks for a silent check, the
/// first is followed by an hour's pause and every other by a day's.
pub proof fn law_ticks(fresh: Schedule)
    requires
        call_ensures(Schedule::new, (), fresh),
    ensures
        !fresh.begun,
        forall|schedule: &mut Schedule, r: u64| #[trigger]
            call_ensures(Schedule::next_pause, (schedule,), r) ==> {
                &&& final(schedule).begun
                &&& schedule.begun ==> r == 86400
                &&& !schedule.begun ==> r == 3600
            },
        forall|
            schedule: &mut Schedule,
            updates: &mut UpdateState<String>,
            r: (Vec<Effect<String>>, u64),
        | #[trigger]
            call_ensures(Schedule::tick, (schedule, updates), r) ==> {
                &&& final(schedule).begun
                &&& schedule.begun ==> r.1 == 86400
                &&& !schedule.begun ==> r.1 == 3600
                &&& updates.check is Some ==> final(updates)@ == updates@
                &&& updates.check is None ==> {
                    &&& final(updates)@.check is Some
                    &&& !final(updates)@.check->0.interactive
                    &&& final(updates)@.check->0.phase is Opening
                    &&& final(updates)@.pending == updates@.pending
                    &&& crate::update::effects_of(r.0@) == seq![Effect::<Seq<char>>::OpenUpdater]
                }
            },
{
}

} // verus!
