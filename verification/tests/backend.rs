use wpp_desktop::dev_backend::{
    found, kill, spawn, spawned, stop_effects, DevBackend, Program, Stop, StopEffect, FOUND_LINE,
};
use wpp_desktop::lifecycle::{
    on_run_event, startup, Build, RunAction, RunEvent, Schedule, Startup,
};
use wpp_desktop::update::{Effect, UpdateState};

#[test]
fn a_running_backend_is_left_alone() {
    assert!(spawn(true, "/src/app", true).is_none());
    assert_eq!(found(true), Some(FOUND_LINE));
    assert_eq!(found(false), None);
    let mut backend = DevBackend::none();
    assert_eq!(on_run_event(RunEvent::Exit, true, &mut backend), RunAction::Nothing);
}

#[test]
fn the_backend_is_started_from_the_sources() {
    let launch = spawn(false, "/src/apps/d/src-tauri", true).unwrap();
    assert_eq!(
        launch.program,
        Program {
            name: "cargo".to_string(),
            args: ["run", "--package", "wpp-core", "--bin", "wpp_core-cli", "--", "start"]
                .iter()
                .map(|a| a.to_string())
                .collect(),
        }
    );
    assert_eq!(launch.dir, "/src/apps/d/src-tauri/../../..");
    assert!(launch.own_group);
    assert!(!spawn(false, "x", false).unwrap().own_group);
}

#[test]
fn only_what_came_up_is_kept() {
    let (backend, line) = spawned(Ok(4711));
    assert_eq!(backend, DevBackend { child: Some(4711) });
    assert_eq!(line, "[wpp-desktop] spawned local backend (pgid 4711)");
    let (backend, line) = spawned(Err("not found".to_string()));
    assert_eq!(backend, DevBackend { child: None });
    assert_eq!(line, "[wpp-desktop] failed to spawn local backend: not found");
}

#[test]
fn the_whole_group_is_signalled() {
    assert_eq!(
        kill(4711, true),
        Stop::Signal {
            program: Program {
                name: "kill".to_string(),
                args: vec!["-TERM".to_string(), "-4711".to_string()],
            }
        }
    );
    assert_eq!(kill(4711, false), Stop::KillChild);
    assert_ne!(kill(1, true), kill(11, true));
}

#[test]
fn the_backend_is_stopped_once() {
    let mut backend = DevBackend { child: Some(9) };
    assert_eq!(on_run_event(RunEvent::Other, true, &mut backend), RunAction::Nothing);
    assert_eq!(on_run_event(RunEvent::Ready, true, &mut backend), RunAction::FocusMain);
    assert_eq!(on_run_event(RunEvent::Exit, true, &mut backend), RunAction::StopBackend { child: 9 });
    assert_eq!(on_run_event(RunEvent::Exit, true, &mut backend), RunAction::Nothing);
}

#[test]
fn packaged_builds_stop_nothing() {
    let mut backend = DevBackend { child: Some(9) };
    assert_eq!(on_run_event(RunEvent::Exit, false, &mut backend), RunAction::Nothing);
    assert_eq!(backend, DevBackend { child: Some(9) });
}

#[test]
fn startup_of_each_build() {
    assert_eq!(
        startup(Build { debug: true, macos: true }),
        Startup {
            dev_backend: true,
            dock_icon: true,
            overlay_title_bar: true,
            debug_marker: true,
            background_checks: false,
        }
    );
    assert_eq!(
        startup(Build { debug: false, macos: false }),
        Startup {
            dev_backend: false,
            dock_icon: false,
            overlay_title_bar: false,
            debug_marker: false,
            background_checks: true,
        }
    );
    assert!(!startup(Build { debug: true, macos: false }).dock_icon);
}

#[test]
fn checks_come_at_once_after_an_hour_and_daily() {
    let mut schedule = Schedule::new();
    let mut time = 0;
    let mut times = vec![];
    for _ in 0..4 {
        times.push(time);
        time += schedule.next_pause();
    }
    assert_eq!(times, vec![0, 3600, 3600 + 86400, 3600 + 2 * 86400]);
}

#[test]
fn a_stopped_backend_is_waited_for() {
    for unix in [true, false] {
        assert_eq!(
            stop_effects(4711, unix),
            vec![
                StopEffect::End { stop: kill(4711, unix) },
                StopEffect::Wait,
                StopEffect::Log { line: "[wpp-desktop] local backend stopped" },
            ]
        );
    }
}

#[test]
fn background_checks_are_silent() {
    let mut schedule = Schedule::new();
    let mut updates = UpdateState::new();
    assert_eq!(schedule.tick(&mut updates), (vec![Effect::OpenUpdater], 3600));
    assert!(!updates.check.as_ref().unwrap().interactive);
    // The first check is still going on.
    assert_eq!(schedule.tick(&mut updates), (vec![], 86400));
    updates.clear_in_flight();
    assert_eq!(schedule.tick(&mut updates), (vec![Effect::OpenUpdater], 86400));
}
