//! What holds of the update flow as a whole.
#[allow(unused_imports)]
use vstd::prelude::*;
#[allow(unused_imports)]
use crate::update::{Check, Effect, Event, Phase, UpdateState};

verus! {

/// Whatever moves the update flow.
pub enum Request {
    /// A check is asked for.
    Check { interactive: bool },
    /// The check in flight gets a reply.
    Reply { event: Event<Seq<char>> },
    /// The update menu item is chosen.
    ItemChosen,
    /// The task of the check in flight went away.
    TaskLost,
}

/// The state after one request.
pub open spec fn after(state: UpdateState<Seq<char>>, request: Request) -> UpdateState<Seq<char>> {
    match request {
        Request::Check { interactive } => state.started(interactive).0,
        Request::Reply { event } => state.stepped(event).0,
        Request::ItemChosen => state.item_chosen().0,
        Request::TaskLost => state.idle(),
    }
}

/// The effects of one request.
pub open spec fn effects(state: UpdateState<Seq<char>>, request: Request) -> Seq<
    Effect<Seq<char>>,
> {
    match request {
        Request::Check { interactive } => state.started(interactive).1,
        Request::Reply { event } => state.stepped(event).1,
        Request::ItemChosen => state.item_chosen().1,
        Request::TaskLost => seq![],
    }
}

/// The state after a run of requests, from a fresh start.
pub open spec fn state_after(requests: Seq<Request>) -> UpdateState<Seq<char>>
    decreases requests.len(),
{
    if requests.len() == 0 {
        UpdateState::initial()
    } else {
        after(state_after(requests.drop_last()), requests.last())
    }
}

/// Whether `effect` puts something on screen.
pub open spec fn is_dialog(effect: Effect<Seq<char>>) -> bool {
    effect is Show || effect is Tell || effect is Ask
}

/// Whether a check in `phase` waits for a reply like `event`.
pub open spec fn awaits(phase: Phase<Seq<char>>, event: Event<Seq<char>>) -> bool {
    match phase {
        Phase::Opening => event is UpdaterReady || event is UpdaterFailed,
        Phase::Checking => event is Available || event is UpToDate || event is CheckFailed,
        Phase::Telling => event is Dismissed,
        Phase::OfferingRestart | Phase::OfferingInstall { .. } => event is Answered,
        Phase::InstallingNow { .. } | Phase::InstallingQuietly { .. } => {
            event is Installed || event is InstallFailed
        },
        Phase::Restarting => false,
    }
}

/// How many replies a check in `phase` can still take.
pub open spec fn replies_left(phase: Phase<Seq<char>>) -> nat {
    match phase {
        Phase::Opening => 5,
        Phase::Checking => 4,
        Phase::OfferingRestart | Phase::OfferingInstall { .. } => 3,
        Phase::InstallingNow { .. } | Phase::InstallingQuietly { .. } => 2,
        Phase::Telling => 1,
        Phase::Restarting => 0,
    }
}

/// How many replies the check in flight can still take.
pub open spec fn steps_left(state: UpdateState<Seq<char>>) -> nat {
    match state.check {
        Some(check) => replies_left(check.phase),
        None => 0,
    }
}

/// The state after a run of replies.
pub open spec fn after_replies(
    state: UpdateState<Seq<char>>,
    events: Seq<Event<Seq<char>>>,
) -> UpdateState<Seq<char>>
    decreases events.len(),
{
    if events.len() == 0 {
        state
    } else {
        after_replies(state.stepped(events[0]).0, events.drop_first())
    }
}

/// Whether each of `events` comes while the check waits for it.
pub open spec fn all_awaited(
    state: UpdateState<Seq<char>>,
    events: Seq<Event<Seq<char>>>,
) -> bool
    decreases events.len(),
{
    events.len() > 0 ==> {
        &&& state.check matches Some(check) && awaits(check.phase, events[0])
        &&& all_awaited(state.stepped(events[0]).0, events.drop_first())
    }
}

/// Every state that the flow can reach is well-formed.
pub proof fn law_reachable_states_are_well_formed(requests: Seq<Request>)
    ensures
        state_after(requests).well_formed(),
    decreases requests.len(),
{
    if requests.len() > 0 {
        law_reachable_states_are_well_formed(requests.drop_last());
    }
}

/// At most one check is in flight: a request for another leaves the state as
/// it is and reaches neither the updater nor the server.
pub proof fn law_one_check_at_a_time(state: UpdateState<Seq<char>>, interactive: bool)
    requires
        state.check is Some,
    ensures
        state.started(interactive).0 == state,
        forall|i: int|
            0 <= i < state.started(interactive).1.len() ==> (
            #[trigger] state.started(interactive).1[i]) is Show,
{
}

/// A check that runs in the background puts nothing on screen, never restarts
/// the application, and stays in the background.
pub proof fn law_background_checks_are_quiet(
    state: UpdateState<Seq<char>>,
    event: Event<Seq<char>>,
)
    requires
        state.well_formed(),
        state.check matches Some(check) && !check.interactive,
    ensures
        forall|i: int|
            0 <= i < state.stepped(event).1.len() ==> !is_dialog(
                #[trigger] state.stepped(event).1[i],
            ) && !(state.stepped(event).1[i] is Restart),
        state.stepped(event).0.check matches Some(next) ==> !next.interactive,
{
}

/// A check that the user asked for and that comes to nothing says so: when
/// the updater does not open, when the server does not answer, and when there
/// is nothing newer.
pub proof fn law_requested_checks_are_answered(
    state: UpdateState<Seq<char>>,
    event: Event<Seq<char>>,
)
    requires
        state.check matches Some(check) && check.interactive && awaits(check.phase, event),
        event is UpdaterFailed || event is CheckFailed || event is UpToDate,
    ensures
        state.stepped(event).1.len() == 1,
        state.stepped(event).1[0] is Tell,
        state.stepped(event).0.check matches Some(next) && next.phase is Telling,
{
}

/// A version that is downloaded already is never downloaded again: a download
/// starts only for a version other than the one that waits.
pub proof fn law_never_downloads_what_waits(
    state: UpdateState<Seq<char>>,
    request: Request,
)
    requires
        state.well_formed(),
        effects(state, request).contains(Effect::DownloadAndInstall),
    ensures
        after(state, request).check matches Some(check) && match check.phase {
            Phase::InstallingNow { version } | Phase::InstallingQuietly { version } => {
                state.pending != Some(version)
            },
            _ => false,
        },
{
    let list = effects(state, request);
    let i = choose|i: int| 0 <= i < list.len() && list[i] == Effect::<Seq<char>>::DownloadAndInstall;
    assert(list[i] is DownloadAndInstall);
}

/// A check never restarts the application without consent: it restarts upon
/// an accepted question, or once an installation has succeeded that only an
/// accepted question starts.
pub proof fn law_checks_restart_only_with_consent(
    state: UpdateState<Seq<char>>,
    event: Event<Seq<char>>,
)
    ensures
        state.stepped(event).1.contains(Effect::Restart) ==> match state.check {
            Some(check) => match check.phase {
                Phase::OfferingRestart => event == (Event::<Seq<char>>::Answered { accepted: true }),
                Phase::InstallingNow { .. } => event is Installed,
                _ => false,
            },
            None => false,
        },
        (state.stepped(event).0.check matches Some(next) && next.phase is InstallingNow)
            ==> match state.check {
            Some(check) => check.phase is InstallingNow || (check.phase is OfferingInstall && event
                == (Event::<Seq<char>>::Answered { accepted: true })),
            None => false,
        },
{
    let list = state.stepped(event).1;
    if list.contains(Effect::Restart) {
        let i = choose|i: int| 0 <= i < list.len() && list[i] == Effect::<Seq<char>>::Restart;
        assert(list[i] is Restart);
    }
}

/// What is announced is what waits: whenever a version is announced as ready,
/// it is the pending one from then on.
pub proof fn law_announced_version_is_pending(
    state: UpdateState<Seq<char>>,
    request: Request,
    version: Seq<char>,
)
    requires
        effects(state, request).contains(Effect::EmitReady { version }),
    ensures
        after(state, request).pending == Some(version),
{
    let list = effects(state, request);
    let i = choose|i: int| 0 <= i < list.len() && list[i] == (Effect::EmitReady { version });
    assert(list[i] is EmitReady);
}

/// What waits has been announced: a version becomes pending only in a step
/// that announces it and turns the menu item into the offer to restart.
pub proof fn law_pending_version_is_announced(
    state: UpdateState<Seq<char>>,
    request: Request,
)
    requires
        after(state, request).pending != state.pending,
    ensures
        after(state, request).pending matches Some(version) && effects(state, request) == seq![
            Effect::SetMenuText { text: crate::update::restart_menu_text(version) },
            Effect::EmitReady { version },
        ],
{
}

/// The version that `effects` announce, if they announce one.
pub open spec fn announcement(effects: Seq<Effect<Seq<char>>>) -> Option<Seq<char>> {
    if exists|version: Seq<char>| #[trigger]
        effects.contains(Effect::EmitReady { version }) {
        Some(
            choose|version: Seq<char>| #[trigger]
                effects.contains(Effect::EmitReady { version }),
        )
    } else {
        None
    }
}

/// The version that was announced last in a run of requests, if any was.
pub open spec fn last_announced(requests: Seq<Request>) -> Option<Seq<char>>
    decreases requests.len(),
{
    if requests.len() == 0 {
        None
    } else {
        let earlier = requests.drop_last();
        match announcement(effects(state_after(earlier), requests.last())) {
            Some(version) => Some(version),
            None => last_announced(earlier),
        }
    }
}

/// A page that missed the announcement misses nothing: at any time, what
/// waits for a restart is what was announced last.
pub proof fn law_pending_is_what_was_announced_last(requests: Seq<Request>)
    ensures
        state_after(requests).pending == last_announced(requests),
    decreases requests.len(),
{
    if requests.len() > 0 {
        let earlier = requests.drop_last();
        let state = state_after(earlier);
        let request = requests.last();
        let list = effects(state, request);
        law_pending_is_what_was_announced_last(earlier);
        match announcement(list) {
            Some(version) => {
                law_announced_version_is_pending(state, request, version);
            },
            None => {
                if after(state, request).pending != state.pending {
                    law_pending_version_is_announced(state, request);
                    let version = after(state, request).pending->0;
                    assert(list[1] == (Effect::EmitReady { version }));
                    assert(list.contains(Effect::EmitReady { version }));
                }
            },
        }
    }
}

/// A background check that finds nothing newer changes nothing and does
/// nothing.
pub proof fn law_background_check_without_news_is_a_no_op(
    state: UpdateState<Seq<char>>,
    running: Seq<char>,
)
    requires
        state.check is None,
    ensures
        ({
            let opened = state.started(false).0;
            let asked = opened.stepped(Event::UpdaterReady).0;
            asked.stepped(Event::UpToDate { running }) == (state, Seq::<Effect<Seq<char>>>::empty())
        }),
{
}

/// A downloaded update stays on offer until the application restarts.
pub proof fn law_pending_update_is_never_lost(
    state: UpdateState<Seq<char>>,
    request: Request,
)
    requires
        state.pending is Some,
    ensures
        after(state, request).pending is Some,
{
}

/// A background check that finds the downloaded version again announces it
/// again, and does nothing else.
pub proof fn law_pending_update_is_offered_again(
    state: UpdateState<Seq<char>>,
    version: Seq<char>,
    current: Seq<char>,
)
    requires
        state.check is None,
        state.pending == Some(version),
    ensures
        ({
            let opened = state.started(false).0;
            let asked = opened.stepped(Event::UpdaterReady).0;
            asked.stepped(Event::Available { version, current }) == (
                state,
                seq![Effect::<Seq<char>>::EmitReady { version }],
            )
        }),
{
}

/// Answering "Later" to an available update goes on as a background check
/// would: the same effects, the same outcome and the same pending update.
pub proof fn law_later_goes_on_in_the_background(
    state: UpdateState<Seq<char>>,
    version: Seq<char>,
    current: Seq<char>,
    outcome: Event<Seq<char>>,
)
    requires
        state.check is None,
        state.pending != Some(version),
        outcome is Installed || outcome is InstallFailed,
    ensures
        ({
            let asked = state.in_phase(true, Phase::Checking);
            let quiet = state.in_phase(false, Phase::Checking);
            let offered = asked.stepped(Event::Available { version, current }).0;
            let declined = offered.stepped(Event::Answered { accepted: false });
            let found = quiet.stepped(Event::Available { version, current });
            &&& declined.1 == found.1
            &&& declined.0.stepped(outcome) == found.0.stepped(outcome)
            &&& outcome is Installed ==> declined.0.stepped(outcome).0.pending == Some(version)
        }),
{
}

/// Each reply brings the check nearer to its end.
pub proof fn law_replies_make_progress(state: UpdateState<Seq<char>>, event: Event<Seq<char>>)
    requires
        state.check matches Some(check) && awaits(check.phase, event),
    ensures
        steps_left(state.stepped(event).0) < steps_left(state),
{
}

/// Every check ends: once it has had as many replies as it can take, it is no
/// longer in flight, or the application is restarting.
pub proof fn law_every_check_ends(
    state: UpdateState<Seq<char>>,
    events: Seq<Event<Seq<char>>>,
)
    requires
        all_awaited(state, events),
        events.len() >= steps_left(state),
    ensures
        ({
            let end = after_replies(state, events);
            end.check is None || end.check->0.phase is Restarting
        }),
    decreases events.len(),
{
    if events.len() > 0 {
        law_replies_make_progress(state, events[0]);
        law_every_check_ends(state.stepped(events[0]).0, events.drop_first());
    }
}

/// The update menu item and the page's restart request agree: with an update
/// downloaded both restart, and without one neither does.
pub proof fn law_restart_is_offered_once_downloaded(state: UpdateState<Seq<char>>)
    ensures
        state.restarted().contains(Effect::Restart) <==> state.pending is Some,
        state.item_chosen().1.contains(Effect::Restart) <==> state.pending is Some,
{
    if state.pending is Some {
        assert(state.restarted()[0] is Restart);
        assert(state.item_chosen().1[0] is Restart);
    } else {
        let list = state.item_chosen().1;
        assert forall|i: int| 0 <= i < list.len() implies !(#[trigger] list[i] is Restart) by {}
    }
}

/// A request for a check begins one where none is in flight. Otherwise it
/// changes nothing, and the user who made it is told so.
pub proof fn law_request_for_a_check(state: UpdateState<Seq<char>>, interactive: bool)
    ensures
        ({
            let (next, effects) = state.started(interactive);
            &&& next.pending == state.pending
            &&& state.check is None ==> {
                &&& next.check == Some(Check { interactive, phase: Phase::<Seq<char>>::Opening })
                &&& effects == seq![Effect::<Seq<char>>::OpenUpdater]
            }
            &&& state.check is Some ==> {
                &&& next == state
                &&& !interactive ==> effects.len() == 0
                &&& interactive ==> effects == seq![
                    Effect::Show {
                        title: "Check for Updates"@,
                        message: "An update check is already in progress."@,
                    },
                ]
            }
        }),
{
}

/// Whatever asks for a check, at most one runs: while one is in flight, choosing
/// the update item leaves the flow as it is and reaches neither the updater nor
/// the server; without a downloaded update it only says that a check is in
/// progress.
pub proof fn law_item_begins_no_second_check(state: UpdateState<Seq<char>>)
    requires
        state.check is Some,
    ensures
        ({
            let (next, effects) = state.item_chosen();
            &&& next == state
            &&& forall|i: int|
                0 <= i < effects.len() ==> {
                    &&& !(#[trigger] effects[i] is OpenUpdater)
                    &&& !(effects[i] is AskServer)
                    &&& !(effects[i] is DownloadAndInstall)
                }
            &&& state.pending is None ==> effects == seq![
                Effect::Show {
                    title: "Check for Updates"@,
                    message: "An update check is already in progress."@,
                },
            ]
        }),
{
}

/// The update item restarts into a downloaded update, and changes nothing then.
/// Without one it does what a request by the user does.
pub proof fn law_item_restarts_or_checks(state: UpdateState<Seq<char>>)
    ensures
        state.pending is Some ==> state.item_chosen() == (state, seq![Effect::<Seq<char>>::Restart]),
        state.pending is None ==> state.item_chosen() == state.started(true),
        state.pending is None && state.check is None ==> {
            &&& state.item_chosen().0.check == Some(
                Check { interactive: true, phase: Phase::<Seq<char>>::Opening },
            )
            &&& state.item_chosen().0.pending is None
            &&& state.item_chosen().1 == seq![Effect::<Seq<char>>::OpenUpdater]
        },
{
}

/// The page's request to restart is followed exactly where an update waits.
pub proof fn law_restart_request(state: UpdateState<Seq<char>>)
    ensures
        state.pending is Some ==> state.restarted() == seq![Effect::<Seq<char>>::Restart],
        state.pending is None ==> state.restarted().len() == 0,
{
}

/// The flow begins with nothing in flight and nothing downloaded, and giving up
/// a check keeps what is downloaded.
pub proof fn law_beginning_and_giving_up(state: UpdateState<Seq<char>>)
    ensures
        UpdateState::<Seq<char>>::initial().check is None,
        UpdateState::<Seq<char>>::initial().pending is None,
        state.idle().check is None,
        state.idle().pending == state.pending,
{
}

/// An updater that opened is followed by the question to the server; one that
/// did not ends the check: in the words of the error for a user who asked, and
/// with a line in the log otherwise.
pub proof fn law_updater_is_opened_first(
    state: UpdateState<Seq<char>>,
    interactive: bool,
    error: Seq<char>,
)
    requires
        state.check == Some(Check { interactive, phase: Phase::<Seq<char>>::Opening }),
    ensures
        ({
            let (next, effects) = state.stepped(Event::UpdaterReady);
            &&& next.pending == state.pending
            &&& next.check == Some(Check { interactive, phase: Phase::<Seq<char>>::Checking })
            &&& effects == seq![Effect::<Seq<char>>::AskServer]
        }),
        ({
            let (next, effects) = state.stepped(Event::UpdaterFailed { error });
            &&& next.pending == state.pending
            &&& interactive ==> {
                &&& next.check == Some(
                    Check { interactive: true, phase: Phase::<Seq<char>>::Telling },
                )
                &&& effects == seq![
                    Effect::Tell {
                        title: "Check for Updates"@,
                        message: "Update check failed: "@ + error,
                    },
                ]
            }
            &&& !interactive ==> {
                &&& next.check is None
                &&& effects == seq![
                    Effect::Log { line: "[wpp-desktop] updater init failed: "@ + error },
                ]
            }
        }),
{
}

/// A server that has nothing newer, or does not answer, ends the check: a user
/// who asked is told which version runs, or what went wrong; in the background
/// only a failure leaves a line in the log.
pub proof fn law_check_without_an_update(
    state: UpdateState<Seq<char>>,
    interactive: bool,
    running: Seq<char>,
    error: Seq<char>,
)
    requires
        state.check == Some(Check { interactive, phase: Phase::<Seq<char>>::Checking }),
    ensures
        ({
            let (next, effects) = state.stepped(Event::UpToDate { running });
            &&& next.pending == state.pending
            &&& interactive ==> {
                &&& next.check == Some(
                    Check { interactive: true, phase: Phase::<Seq<char>>::Telling },
                )
                &&& effects == seq![
                    Effect::Tell {
                        title: "Check for Updates"@,
                        message: "WordPuppi "@ + running + " is up to date."@,
                    },
                ]
            }
            &&& !interactive ==> next.check is None && effects.len() == 0
        }),
        ({
            let (next, effects) = state.stepped(Event::CheckFailed { error });
            &&& next.pending == state.pending
            &&& interactive ==> {
                &&& next.check == Some(
                    Check { interactive: true, phase: Phase::<Seq<char>>::Telling },
                )
                &&& effects == seq![
                    Effect::Tell {
                        title: "Check for Updates"@,
                        message: "Update check failed: "@ + error,
                    },
                ]
            }
            &&& !interactive ==> {
                &&& next.check is None
                &&& effects == seq![
                    Effect::Log { line: "[wpp-desktop] update check failed: "@ + error },
                ]
            }
        }),
{
}

/// A release that is downloaded already is announced again, and a user who asked
/// is offered the restart. Any other release is offered to a user who asked, and
/// downloaded at once in the background.
pub proof fn law_release_is_offered_or_downloaded(
    state: UpdateState<Seq<char>>,
    interactive: bool,
    version: Seq<char>,
    current: Seq<char>,
)
    requires
        state.check == Some(Check { interactive, phase: Phase::<Seq<char>>::Checking }),
    ensures
        ({
            let (next, effects) = state.stepped(Event::Available { version, current });
            let known = state.pending == Some(version);
            &&& next.pending == state.pending
            &&& known && interactive ==> {
                &&& next.check == Some(
                    Check { interactive: true, phase: Phase::<Seq<char>>::OfferingRestart },
                )
                &&& effects == seq![
                    Effect::EmitReady { version },
                    Effect::Ask {
                        title: "Update ready"@,
                        message: "WordPuppi "@ + version
                            + " is downloaded and ready. Restart now?"@,
                        accept: "Restart"@,
                        decline: "Later"@,
                    },
                ]
            }
            &&& known && !interactive ==> {
                &&& next.check is None
                &&& effects == seq![Effect::EmitReady { version }]
            }
            &&& !known && interactive ==> {
                &&& next.check == Some(
                    Check { interactive: true, phase: Phase::OfferingInstall { version } },
                )
                &&& effects == seq![
                    Effect::Ask {
                        title: "Update available"@,
                        message: "WordPuppi "@ + version + " is available (you have "@ + current
                            + "). Install and restart?"@,
                        accept: "Install"@,
                        decline: "Later"@,
                    },
                ]
            }
            &&& !known && !interactive ==> {
                &&& next.check == Some(
                    Check { interactive: false, phase: Phase::InstallingQuietly { version } },
                )
                &&& effects == seq![Effect::<Seq<char>>::DownloadAndInstall]
            }
        }),
{
}

/// What the user's answers lead to: an accepted restart restarts, a declined one
/// ends the check; the update on offer is installed either way, for a restart or
/// quietly. A closing message that was read ends the check.
pub proof fn law_answers_are_followed(
    state: UpdateState<Seq<char>>,
    interactive: bool,
    version: Seq<char>,
)
    ensures
        state.check == Some(Check { interactive, phase: Phase::<Seq<char>>::OfferingRestart }) ==> {
            let yes = state.stepped(Event::Answered { accepted: true });
            let no = state.stepped(Event::Answered { accepted: false });
            &&& yes.0.pending == state.pending
            &&& yes.0.check == Some(
                Check { interactive, phase: Phase::<Seq<char>>::Restarting },
            )
            &&& yes.1 == seq![Effect::<Seq<char>>::Restart]
            &&& no.0.pending == state.pending
            &&& no.0.check is None
            &&& no.1.len() == 0
        },
        state.check == Some(Check { interactive, phase: Phase::OfferingInstall { version } }) ==> {
            let yes = state.stepped(Event::Answered { accepted: true });
            let no = state.stepped(Event::Answered { accepted: false });
            &&& yes.0.pending == state.pending
            &&& yes.0.check == Some(
                Check { interactive, phase: Phase::InstallingNow { version } },
            )
            &&& yes.1 == seq![Effect::<Seq<char>>::DownloadAndInstall]
            &&& no.0.pending == state.pending
            &&& no.0.check == Some(
                Check { interactive, phase: Phase::InstallingQuietly { version } },
            )
            &&& no.1 == seq![Effect::<Seq<char>>::DownloadAndInstall]
        },
        state.check == Some(Check { interactive, phase: Phase::<Seq<char>>::Telling }) ==> {
            let read = state.stepped(Event::Dismissed);
            &&& read.0.pending == state.pending
            &&& read.0.check is None
            &&& read.1.len() == 0
        },
{
}

/// What an installation leads to: with consent to a restart, or to a message that
/// it failed; quietly, to a version that waits, a menu item that says so and an
/// announcement, or to a line in the log.
pub proof fn law_installations_end(
    state: UpdateState<Seq<char>>,
    interactive: bool,
    version: Seq<char>,
    error: Seq<char>,
)
    ensures
        state.check == Some(Check { interactive, phase: Phase::InstallingNow { version } }) ==> {
            let done = state.stepped(Event::Installed);
            let failed = state.stepped(Event::InstallFailed { error });
            &&& done.0.pending == state.pending
            &&& done.0.check == Some(
                Check { interactive, phase: Phase::<Seq<char>>::Restarting },
            )
            &&& done.1 == seq![Effect::<Seq<char>>::Restart]
            &&& failed.0.pending == state.pending
            &&& failed.0.check == Some(
                Check { interactive, phase: Phase::<Seq<char>>::Telling },
            )
            &&& failed.1 == seq![
                Effect::Tell { title: "Update"@, message: "Update install failed: "@ + error },
            ]
        },
        state.check == Some(Check { interactive, phase: Phase::InstallingQuietly { version } })
            ==> {
            let done = state.stepped(Event::Installed);
            let failed = state.stepped(Event::InstallFailed { error });
            &&& done.0.pending == Some(version)
            &&& done.0.check is None
            &&& done.1 == seq![
                Effect::SetMenuText { text: "Restart to Update WordPuppi to "@ + version },
                Effect::EmitReady { version },
            ]
            &&& failed.0.pending == state.pending
            &&& failed.0.check is None
            &&& failed.1 == seq![
                Effect::Log { line: "[wpp-desktop] update install failed: "@ + error },
            ]
        },
{
}

/// A reply that nobody waits for does nothing: without a check in flight, once
/// the application restarts, and where the phase asks for another.
pub proof fn law_stray_replies_do_nothing(
    state: UpdateState<Seq<char>>,
    event: Event<Seq<char>>,
)
    requires
        match state.check {
            None => true,
            Some(check) => match check.phase {
                Phase::Opening => !(event is UpdaterReady) && !(event is UpdaterFailed),
                Phase::Checking => !(event is Available) && !(event is UpToDate) && !(
                event is CheckFailed),
                Phase::Telling => !(event is Dismissed),
                Phase::OfferingRestart | Phase::OfferingInstall { .. } => !(event is Answered),
                Phase::InstallingNow { .. } | Phase::InstallingQuietly { .. } => {
                    !(event is Installed) && !(event is InstallFailed)
                },
                Phase::Restarting => true,
            },
        },
    ensures
        state.stepped(event).0 == state,
        state.stepped(event).1.len() == 0,
{
}

/// Effects are read as they are, each part for itself, and in their order.
pub proof fn law_effects_are_shown(effect: Effect<String>, effects: Seq<Effect<String>>)
    ensures
        match effect {
            Effect::Show { title, message } => effect@ == (Effect::Show {
                title: title@,
                message: message@,
            }),
            Effect::Tell { title, message } => effect@ == (Effect::Tell {
                title: title@,
                message: message@,
            }),
            Effect::Ask { title, message, accept, decline } => effect@ == (Effect::Ask {
                title: title@,
                message: message@,
                accept: accept@,
                decline: decline@,
            }),
            Effect::Log { line } => effect@ == (Effect::Log { line: line@ }),
            Effect::OpenUpdater => effect@ is OpenUpdater,
            Effect::AskServer => effect@ is AskServer,
            Effect::DownloadAndInstall => effect@ is DownloadAndInstall,
            Effect::SetMenuText { text } => effect@ == (Effect::SetMenuText { text: text@ }),
            Effect::EmitReady { version } => effect@ == (Effect::EmitReady { version: version@ }),
            Effect::Restart => effect@ is Restart,
        },
        crate::update::effects_of(effects).len() == effects.len(),
        forall|i: int|
            0 <= i < effects.len() ==> #[trigger] crate::update::effects_of(effects)[i]
                == effects[i]@,
{
}

/// Replies are read as they are, each part for itself.
pub proof fn law_events_are_shown(event: Event<String>)
    ensures
        match event {
            Event::UpdaterReady => event@ is UpdaterReady,
            Event::UpdaterFailed { error } => event@ == (Event::UpdaterFailed { error: error@ }),
            Event::Available { version, current } => event@ == (Event::Available {
                version: version@,
                current: current@,
            }),
            Event::UpToDate { running } => event@ == (Event::UpToDate { running: running@ }),
            Event::CheckFailed { error } => event@ == (Event::CheckFailed { error: error@ }),
            Event::Dismissed => event@ is Dismissed,
            Event::Answered { accepted } => event@ == (Event::<Seq<char>>::Answered { accepted }),
            Event::Installed => event@ is Installed,
            Event::InstallFailed { error } => event@ == (Event::InstallFailed { error: error@ }),
        },
{
}

/// The flow is read as it is: what is in flight, for whom and how far, and what
/// waits.
pub proof fn law_states_are_shown(state: UpdateState<String>)
    ensures
        state@.pending is Some <==> state.pending is Some,
        state.pending matches Some(version) ==> state@.pending == Some(version@),
        state@.check is Some <==> state.check is Some,
        state.check matches Some(check) ==> state@.check->0.interactive == check.interactive
            && match check.phase {
            Phase::Opening => state@.check->0.phase is Opening,
            Phase::Checking => state@.check->0.phase is Checking,
            Phase::Telling => state@.check->0.phase is Telling,
            Phase::OfferingRestart => state@.check->0.phase is OfferingRestart,
            Phase::OfferingInstall { version } => state@.check->0.phase == (
            Phase::OfferingInstall { version: version@ }),
            Phase::InstallingNow { version } => state@.check->0.phase == (Phase::InstallingNow {
                version: version@,
            }),
            Phase::InstallingQuietly { version } => state@.check->0.phase == (
            Phase::InstallingQuietly { version: version@ }),
            Phase::Restarting => state@.check->0.phase is Restarting,
        },
{
}

/// Whoever asks, there is never a second check: while one is in flight, a request
/// and a choice of the update item leave the flow as it is, and open no updater.
pub proof fn law_nothing_begins_a_second_check()
    ensures
        forall|flow: &mut UpdateState<String>, interactive: bool, r: Vec<Effect<String>>|
            #[trigger]
            call_ensures(UpdateState::<String>::spawn_update_check, (flow, interactive), r)
                && flow.check is Some ==> final(flow)@ == flow@ && forall|i: int|
                0 <= i < r@.len() ==> #[trigger] r@[i] is Show && interactive,
        forall|flow: &mut UpdateState<String>, r: Vec<Effect<String>>| #[trigger]
            call_ensures(UpdateState::<String>::update_item_chosen, (flow,), r)
                && flow.check is Some ==> final(flow)@ == flow@ && forall|i: int|
                0 <= i < r@.len() ==> #[trigger] r@[i] is Show || r@[i] is Restart,
        forall|flow: &mut UpdateState<String>, debug: bool, r: Vec<Effect<String>>| #[trigger]
            call_ensures(UpdateState::<String>::check_updates_silent, (flow, debug), r)
                && flow.check is Some ==> final(flow)@ == flow@ && r@.len() == 0,
{
    assert forall|flow: &mut UpdateState<String>, interactive: bool, r: Vec<Effect<String>>|
        #[trigger]
        call_ensures(UpdateState::<String>::spawn_update_check, (flow, interactive), r)
            && flow.check is Some implies final(flow)@ == flow@ && forall|i: int|
        0 <= i < r@.len() ==> #[trigger] r@[i] is Show && interactive by {
        let list = crate::update::effects_of(r@);
        law_request_for_a_check(flow@, interactive);
        assert(list.len() == r@.len());
        assert forall|i: int| 0 <= i < r@.len() implies #[trigger] r@[i] is Show && interactive by {
            assert(list[i] == r@[i]@);
        }
    }
    assert forall|flow: &mut UpdateState<String>, r: Vec<Effect<String>>| #[trigger]
        call_ensures(UpdateState::<String>::update_item_chosen, (flow,), r)
            && flow.check is Some implies final(flow)@ == flow@ && forall|i: int|
        0 <= i < r@.len() ==> #[trigger] r@[i] is Show || r@[i] is Restart by {
        let list = crate::update::effects_of(r@);
        law_item_restarts_or_checks(flow@);
        law_request_for_a_check(flow@, true);
        assert(list.len() == r@.len());
        assert forall|i: int| 0 <= i < r@.len() implies #[trigger] r@[i] is Show
            || r@[i] is Restart by {
            assert(list[i] == r@[i]@);
        }
    }
    assert forall|flow: &mut UpdateState<String>, debug: bool, r: Vec<Effect<String>>| #[trigger]
        call_ensures(UpdateState::<String>::check_updates_silent, (flow, debug), r)
            && flow.check is Some implies final(flow)@ == flow@ && r@.len() == 0 by {
        law_request_for_a_check(flow@, false);
        assert(crate::update::effects_of(r@).len() == r@.len());
    }
}

/// Without a check in flight each of them begins one for the right person: a
/// request for whom it is made, the update item, where nothing waits, for the
/// user, and the page's silent request in the background, except in a debug
/// build, where it does nothing.
pub proof fn law_checks_begin_for_the_right_person()
    ensures
        forall|flow: &mut UpdateState<String>, interactive: bool, r: Vec<Effect<String>>|
            #[trigger]
            call_ensures(UpdateState::<String>::spawn_update_check, (flow, interactive), r)
                && flow.check is None ==> {
                &&& final(flow)@.check == Some(
                    Check { interactive, phase: Phase::<Seq<char>>::Opening },
                )
                &&& final(flow)@.pending == flow@.pending
                &&& crate::update::effects_of(r@) == seq![Effect::<Seq<char>>::OpenUpdater]
            },
        forall|flow: &mut UpdateState<String>, r: Vec<Effect<String>>| #[trigger]
            call_ensures(UpdateState::<String>::update_item_chosen, (flow,), r)
                && flow.check is None && flow.pending is None ==> {
                &&& final(flow)@.check == Some(
                    Check { interactive: true, phase: Phase::<Seq<char>>::Opening },
                )
                &&& final(flow)@.pending is None
                &&& crate::update::effects_of(r@) == seq![Effect::<Seq<char>>::OpenUpdater]
            },
        forall|flow: &mut UpdateState<String>, r: Vec<Effect<String>>| #[trigger]
            call_ensures(UpdateState::<String>::update_item_chosen, (flow,), r)
                && flow.pending is Some ==> {
                &&& final(flow)@ == flow@
                &&& crate::update::effects_of(r@) == seq![Effect::<Seq<char>>::Restart]
            },
        forall|flow: &mut UpdateState<String>, debug: bool, r: Vec<Effect<String>>| #[trigger]
            call_ensures(UpdateState::<String>::check_updates_silent, (flow, debug), r)
                && flow.check is None ==> {
                &&& debug ==> final(flow)@ == flow@ && r@.len() == 0
                &&& !debug ==> {
                    &&& final(flow)@.check == Some(
                        Check { interactive: false, phase: Phase::<Seq<char>>::Opening },
                    )
                    &&& final(flow)@.pending == flow@.pending
                    &&& crate::update::effects_of(r@) == seq![Effect::<Seq<char>>::OpenUpdater]
                }
            },
{
    assert forall|flow: &mut UpdateState<String>, debug: bool, r: Vec<Effect<String>>| #[trigger]
        call_ensures(UpdateState::<String>::check_updates_silent, (flow, debug), r)
            && flow.check is None && debug implies final(flow)@ == flow@ && r@.len() == 0 by {
        assert(crate::update::effects_of(r@).len() == r@.len());
    }
}

/// A reply is taken as the laws on replies have it, and giving up a check ends
/// it and keeps what is downloaded.
pub proof fn law_replies_are_taken()
    ensures
        forall|flow: &mut UpdateState<String>, event: Event<String>, r: Vec<Effect<String>>|
            #[trigger]
            call_ensures(UpdateState::<String>::step, (flow, event), r) ==> {
                &&& final(flow)@ == flow@.stepped(event@).0
                &&& crate::update::effects_of(r@) == flow@.stepped(event@).1
            },
        forall|flow: &mut UpdateState<String>, r: ()| #[trigger]
            call_ensures(UpdateState::<String>::clear_in_flight, (flow,), r) ==> {
                &&& final(flow)@.check is None
                &&& final(flow)@.pending == flow@.pending
            },
{
}

/// A fresh flow has nothing in flight and nothing waiting; what waits is told as
/// it is; and a restart is granted exactly where something waits.
pub proof fn law_what_waits_is_told(
    fresh: UpdateState<String>,
    flow: &UpdateState<String>,
    told: Option<String>,
    r: Vec<Effect<String>>,
)
    requires
        call_ensures(UpdateState::<String>::new, (), fresh),
        call_ensures(UpdateState::<String>::get_pending_update, (flow,), told),
        call_ensures(UpdateState::<String>::update_restart, (flow,), r),
    ensures
        fresh.check is None,
        fresh.pending is None,
        told is Some <==> flow.pending is Some,
        told matches Some(version) ==> version@ == flow.pending->0@,
        flow.pending is Some ==> r@.len() == 1 && r@[0] is Restart,
        flow.pending is None ==> r@.len() == 0,
{
}

/// An announcement is the ready event with the version that is ready, and no
/// other effect is one.
pub proof fn law_announcements(effect: &Effect<String>, r: Option<(&'static str, &String)>)
    requires
        call_ensures(Effect::<String>::announcement, (effect,), r),
    ensures
        r is Some <==> *effect is EmitReady,
        r matches Some(told) ==> told.0@ == "update://ready"@ && told.1@ == effect->version@,
{
}

} // verus!
