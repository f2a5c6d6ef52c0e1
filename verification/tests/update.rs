use wpp_desktop::update::{Check, Effect, Event, Phase, UpdateState, READY_EVENT};

fn s(text: &str) -> String {
    text.to_string()
}

/// A state in which a check waits for the server's answer.
fn checking(interactive: bool, pending: Option<&str>) -> UpdateState<String> {
    let mut state = UpdateState::new();
    state.pending = pending.map(s);
    assert_eq!(state.spawn_update_check(interactive), vec![Effect::OpenUpdater]);
    assert_eq!(state.step(Event::UpdaterReady), vec![Effect::AskServer]);
    state
}

fn available(version: &str) -> Event<String> {
    Event::Available { version: s(version), current: s("0.1.45") }
}

fn idle(state: &UpdateState<String>) -> bool {
    state.check.is_none()
}

fn tell(title: &str, message: &str) -> Vec<Effect<String>> {
    vec![Effect::Tell { title: s(title), message: s(message) }]
}

fn installed(version: &str) -> Vec<Effect<String>> {
    vec![
        Effect::SetMenuText { text: format!("Restart to Update WordPuppi to {}", version) },
        Effect::EmitReady { version: s(version) },
    ]
}

#[test]
fn one_check_at_a_time() {
    let mut state = checking(false, None);
    assert_eq!(state.spawn_update_check(false), vec![]);
    assert_eq!(
        state.spawn_update_check(true),
        vec![Effect::Show {
            title: s("Check for Updates"),
            message: s("An update check is already in progress."),
        }]
    );
    assert_eq!(state.check, Some(Check { interactive: false, phase: Phase::Checking }));
}

#[test]
fn a_background_check_installs_quietly() {
    let mut state = checking(false, None);
    assert_eq!(state.step(available("0.1.46")), vec![Effect::DownloadAndInstall]);
    assert_eq!(state.get_pending_update(), None);
    assert_eq!(state.step(Event::Installed), installed("0.1.46"));
    assert!(idle(&state));
    assert_eq!(state.get_pending_update(), Some(s("0.1.46")));
}

#[test]
fn a_background_check_fails_quietly() {
    let mut state = UpdateState::new();
    state.spawn_update_check(false);
    assert_eq!(
        state.step(Event::UpdaterFailed { error: s("no key") }),
        vec![Effect::Log { line: s("[wpp-desktop] updater init failed: no key") }]
    );
    assert!(idle(&state));

    let mut state = checking(false, None);
    assert_eq!(
        state.step(Event::CheckFailed { error: s("offline") }),
        vec![Effect::Log { line: s("[wpp-desktop] update check failed: offline") }]
    );
    assert!(idle(&state));

    let mut state = checking(false, None);
    assert_eq!(state.step(Event::UpToDate { running: s("0.1.46") }), vec![]);
    assert!(idle(&state));

    let mut state = checking(false, None);
    state.step(available("0.1.46"));
    assert_eq!(
        state.step(Event::InstallFailed { error: s("disk full") }),
        vec![Effect::Log { line: s("[wpp-desktop] update install failed: disk full") }]
    );
    assert!(idle(&state));
    assert_eq!(state.pending, None);
}

#[test]
fn a_requested_check_is_answered() {
    let mut state = UpdateState::new();
    state.spawn_update_check(true);
    assert_eq!(
        state.step(Event::UpdaterFailed { error: s("no key") }),
        tell("Check for Updates", "Update check failed: no key")
    );
    assert!(!idle(&state));
    assert_eq!(state.step(Event::Dismissed), vec![]);
    assert!(idle(&state));

    let mut state = checking(true, None);
    assert_eq!(
        state.step(Event::CheckFailed { error: s("offline") }),
        tell("Check for Updates", "Update check failed: offline")
    );

    let mut state = checking(true, None);
    assert_eq!(
        state.step(Event::UpToDate { running: s("0.1.46") }),
        tell("Check for Updates", "WordPuppi 0.1.46 is up to date.")
    );
}

#[test]
fn a_requested_check_asks_before_it_installs() {
    let mut state = checking(true, None);
    assert_eq!(
        state.step(available("0.1.46")),
        vec![Effect::Ask {
            title: s("Update available"),
            message: s("WordPuppi 0.1.46 is available (you have 0.1.45). Install and restart?"),
            accept: s("Install"),
            decline: s("Later"),
        }]
    );
    assert_eq!(state.step(Event::Answered { accepted: true }), vec![Effect::DownloadAndInstall]);
    assert_eq!(state.step(Event::Installed), vec![Effect::Restart]);
    assert_eq!(state.check, Some(Check { interactive: true, phase: Phase::Restarting }));
}

#[test]
fn a_failed_installation_is_told() {
    let mut state = checking(true, None);
    state.step(available("0.1.46"));
    state.step(Event::Answered { accepted: true });
    assert_eq!(
        state.step(Event::InstallFailed { error: s("bad signature") }),
        tell("Update", "Update install failed: bad signature")
    );
    assert_eq!(state.step(Event::Dismissed), vec![]);
    assert!(idle(&state));
    assert_eq!(state.pending, None);
}

#[test]
fn later_goes_on_in_the_background() {
    let mut state = checking(true, None);
    state.step(available("0.1.46"));
    assert_eq!(state.step(Event::Answered { accepted: false }), vec![Effect::DownloadAndInstall]);
    assert_eq!(state.step(Event::Installed), installed("0.1.46"));
    assert_eq!(state.pending, Some(s("0.1.46")));

    let mut state = checking(true, None);
    state.step(available("0.1.46"));
    state.step(Event::Answered { accepted: false });
    assert_eq!(
        state.step(Event::InstallFailed { error: s("disk full") }),
        vec![Effect::Log { line: s("[wpp-desktop] update install failed: disk full") }]
    );
}

#[test]
fn a_downloaded_update_is_offered_again_and_not_downloaded() {
    let mut state = checking(false, Some("0.1.46"));
    assert_eq!(state.step(available("0.1.46")), vec![Effect::EmitReady { version: s("0.1.46") }]);
    assert!(idle(&state));

    let mut state = checking(true, Some("0.1.46"));
    assert_eq!(
        state.step(available("0.1.46")),
        vec![
            Effect::EmitReady { version: s("0.1.46") },
            Effect::Ask {
                title: s("Update ready"),
                message: s("WordPuppi 0.1.46 is downloaded and ready. Restart now?"),
                accept: s("Restart"),
                decline: s("Later"),
            },
        ]
    );
    assert_eq!(state.step(Event::Answered { accepted: false }), vec![]);
    assert!(idle(&state));
    assert_eq!(state.pending, Some(s("0.1.46")));

    let mut state = checking(true, Some("0.1.46"));
    state.step(available("0.1.46"));
    assert_eq!(state.step(Event::Answered { accepted: true }), vec![Effect::Restart]);
}

#[test]
fn a_newer_version_replaces_the_pending_one() {
    let mut state = checking(false, Some("0.1.46"));
    assert_eq!(state.step(available("0.1.47")), vec![Effect::DownloadAndInstall]);
    assert_eq!(state.step(Event::Installed), installed("0.1.47"));
    assert_eq!(state.get_pending_update(), Some(s("0.1.47")));
}

#[test]
fn replies_out_of_turn_do_nothing() {
    let mut state = UpdateState::new();
    assert_eq!(state.step(Event::Installed), vec![]);
    assert!(idle(&state));
    let mut state = checking(true, None);
    assert_eq!(state.step(Event::Answered { accepted: true }), vec![]);
    assert_eq!(state.check, Some(Check { interactive: true, phase: Phase::Checking }));
}

#[test]
fn a_lost_task_frees_the_flow() {
    let mut state = checking(true, Some("0.1.46"));
    state.clear_in_flight();
    assert!(idle(&state));
    assert_eq!(state.pending, Some(s("0.1.46")));
    assert_eq!(state.spawn_update_check(false), vec![Effect::OpenUpdater]);
}

#[test]
fn restarting_needs_a_downloaded_update() {
    let mut state: UpdateState<String> = UpdateState::new();
    assert_eq!(state.update_restart(), vec![]);
    assert_eq!(state.update_item_chosen(), vec![Effect::OpenUpdater]);
    assert_eq!(state.check, Some(Check { interactive: true, phase: Phase::Opening }));

    let mut state = UpdateState::new();
    state.pending = Some(s("0.1.46"));
    assert_eq!(state.update_restart(), vec![Effect::Restart]);
    assert_eq!(state.update_item_chosen(), vec![Effect::Restart]);
    assert!(idle(&state));
}

#[test]
fn debug_builds_make_no_silent_checks() {
    let mut state = UpdateState::new();
    assert_eq!(state.check_updates_silent(true), vec![]);
    assert!(idle(&state));
    assert_eq!(state.check_updates_silent(false), vec![Effect::OpenUpdater]);
    assert_eq!(state.check, Some(Check { interactive: false, phase: Phase::Opening }));
}

#[test]
fn what_waits_is_what_was_announced_last() {
    let mut state = UpdateState::new();
    let mut announced = None;
    for version in ["0.1.46", "0.1.46", "0.1.47"] {
        state.spawn_update_check(false);
        for event in [Event::UpdaterReady, available(version), Event::Installed] {
            for effect in state.step(event) {
                if let Effect::EmitReady { version } = effect {
                    announced = Some(version);
                }
            }
            assert_eq!(state.get_pending_update(), announced);
        }
    }
    assert_eq!(announced, Some(s("0.1.47")));
}

#[test]
fn the_page_listens_for_the_ready_event() {
    assert_eq!(READY_EVENT, "update://ready");
    let effect = Effect::EmitReady { version: s("0.2.0") };
    assert_eq!(effect.announcement(), Some(("update://ready", &s("0.2.0"))));
    assert_eq!(Effect::Log { line: s("x") }.announcement(), None);
}
