use wpp_desktop::command::{shell_or_default, Login};
use wpp_desktop::terminal::{
    read_step, terminal_kill, terminal_resize, terminal_result, terminal_spawn, terminal_write,
    write_step, Environment, ExitPayload, Notice, Spawn, SpawnEffect, SpawnPhase, SpawnStatus,
    TerminalSize, TerminalState, WritePhase, WriteStatus, DATA_EVENT, EXIT_EVENT,
};

fn environment() -> Environment {
    Environment { home: Some("/home/u".to_string()), shell: Some("/bin/fish".to_string()), has_term: false, unix: true }
}

fn begin() -> Spawn<String> {
    terminal_spawn("~/WordPuppi", &environment()).unwrap().0
}

fn running(status: SpawnStatus<String>) -> Spawn<String> {
    match status {
        SpawnStatus::Running { spawn } => spawn,
        SpawnStatus::Finished { result } => panic!("finished: {:?}", result),
    }
}

/// Takes a start as far as the claim of its generation.
fn claim(state: &mut TerminalState) -> (Spawn<String>, u64) {
    let spawn = running(begin().step(state, Ok(())).0);
    let generation = match spawn.phase {
        SpawnPhase::OpeningPty { generation } => generation,
        _ => panic!("no generation claimed"),
    };
    (spawn, generation)
}

/// Takes a start from the claim to its end.
fn complete(spawn: Spawn<String>, state: &mut TerminalState) {
    let mut spawn = spawn;
    for _ in 0..3 {
        spawn = running(spawn.step(state, Ok(())).0);
    }
    let (status, _) = spawn.step(state, Ok(()));
    assert_eq!(status, SpawnStatus::Finished { result: Ok(()) });
}

#[test]
fn superseded_generation_is_suppressed() {
    let mut state = TerminalState::default();
    // Session A claims generation 1.
    let (_, a_gen) = claim(&mut state);
    assert_eq!(a_gen, 1);
    // A never superseded → still current → would emit.
    assert_eq!(state.generation, a_gen);
    assert_eq!(state.exit_report(a_gen, Some(7)), Some(ExitPayload { code: 7 }));
    // A Restart: kill bumps, then a respawn claims generation 3.
    terminal_kill(&mut state);
    let (_, b_gen) = claim(&mut state);
    assert_eq!(b_gen, 3);
    // A's captured id is now stale → suppressed.
    assert_ne!(state.generation, a_gen);
    assert_eq!(state.exit_report(a_gen, Some(7)), None);
    // B is current → would emit.
    assert_eq!(state.generation, b_gen);
    assert_eq!(state.exit_report(b_gen, None), Some(ExitPayload { code: 0 }));
}

#[test]
fn generations_wrap_around() {
    let mut state = TerminalState { generation: u64::MAX, session: None };
    terminal_kill(&mut state);
    assert_eq!(state.generation, 0);
    assert_eq!(state.exit_report(u64::MAX, Some(0)), None);
}

#[test]
fn a_start_in_which_nothing_fails() {
    let mut state = TerminalState { generation: 4, session: Some(4) };
    let login = || Login {
        shell: "/bin/fish".to_string(),
        cwd: "/home/u/WordPuppi".to_string(),
        has_term: false,
    };
    let (spawn, mut effects) = terminal_spawn("~/WordPuppi", &environment()).unwrap();
    let mut status = SpawnStatus::Running { spawn };
    for _ in 0..5 {
        let (next, more) = running(status).step(&mut state, Ok(()));
        status = next;
        effects.extend(more);
    }
    assert_eq!(status, SpawnStatus::Finished { result: Ok(()) });
    assert_eq!(state, TerminalState { generation: 5, session: Some(5) });
    assert_eq!(
        effects,
        vec![
            SpawnEffect::CreateDir { path: "/home/u/WordPuppi".to_string() },
            SpawnEffect::KillSession,
            SpawnEffect::OpenPty {
                size: TerminalSize { rows: 24, cols: 80, pixel_width: 0, pixel_height: 0 }
            },
            SpawnEffect::Launch { login: login() },
            SpawnEffect::DropSlave,
            SpawnEffect::CloneReader,
            SpawnEffect::TakeWriter,
            SpawnEffect::StoreSession,
            SpawnEffect::StartReader,
            SpawnEffect::StartWaiter { generation: 5 },
        ]
    );
}

#[test]
fn a_first_start_has_nothing_to_kill() {
    let mut state = TerminalState::default();
    let (_, effects) = begin().step(&mut state, Ok(()));
    assert_eq!(
        effects,
        vec![SpawnEffect::OpenPty {
            size: TerminalSize { rows: 24, cols: 80, pixel_width: 0, pixel_height: 0 }
        }]
    );
}

#[test]
fn a_start_without_home_is_refused() {
    let environment = Environment { home: None, shell: None, has_term: true, unix: true };
    match terminal_spawn("~/x", &environment) {
        Err(message) => assert_eq!(message, "cannot expand ~: HOME is not set"),
        Ok(_) => panic!("started without a home"),
    }
    let (spawn, effects) = terminal_spawn("/tmp", &environment).unwrap();
    assert_eq!(
        spawn.login,
        Login { shell: "/bin/zsh".to_string(), cwd: "/tmp".to_string(), has_term: true }
    );
    assert_eq!(effects, vec![SpawnEffect::CreateDir { path: "/tmp".to_string() }]);
}

#[test]
fn a_directory_that_cannot_be_created_leaves_the_dock_alone() {
    let mut state = TerminalState { generation: 2, session: Some(2) };
    let (status, effects) = begin().step(&mut state, Err("no space".to_string()));
    assert_eq!(
        status,
        SpawnStatus::Finished {
            result: Err("cannot create workspace dir /home/u/WordPuppi: no space".to_string())
        }
    );
    assert!(effects.is_empty());
    assert_eq!(state, TerminalState { generation: 2, session: Some(2) });
}

#[test]
fn later_failures_leave_no_session() {
    for successes in 0..4 {
        let mut state = TerminalState { generation: 2, session: Some(2) };
        let (mut spawn, generation) = claim(&mut state);
        for _ in 0..successes {
            spawn = running(spawn.step(&mut state, Ok(())).0);
        }
        let (status, effects) = spawn.step(&mut state, Err("broken".to_string()));
        assert_eq!(status, SpawnStatus::Finished { result: Err("broken".to_string()) });
        assert!(effects.is_empty());
        assert_eq!(state, TerminalState { generation, session: None });
    }
}

#[test]
fn the_live_session_is_the_current_one() {
    let mut state = TerminalState::default();
    for expected in 1..4 {
        let (spawn, generation) = claim(&mut state);
        assert_eq!(generation, expected);
        complete(spawn, &mut state);
        assert_eq!(state.session, Some(state.generation));
    }
}

#[test]
fn writing_needs_a_session() {
    let live = TerminalState { generation: 1, session: Some(1) };
    assert_eq!(terminal_write(&live, "ls ä\r"), Some("ls ä\r".as_bytes().to_vec()));
    assert_eq!(terminal_write(&live, ""), Some(vec![]));
    assert_eq!(terminal_write(&TerminalState::default(), "ls"), None);
}

#[test]
fn resizing_needs_a_session() {
    let live = TerminalState { generation: 1, session: Some(1) };
    assert_eq!(
        terminal_resize(&live, 50, 132),
        Some(TerminalSize { rows: 50, cols: 132, pixel_width: 0, pixel_height: 0 })
    );
    assert_eq!(terminal_resize(&TerminalState::default(), 50, 132), None);
}

#[test]
fn killing_ends_the_session_once() {
    let mut state = TerminalState { generation: 1, session: Some(1) };
    assert!(terminal_kill(&mut state));
    assert_eq!(state, TerminalState { generation: 2, session: None });
    assert_eq!(terminal_write(&state, "x"), None);
    assert!(!terminal_kill(&mut state));
    assert_eq!(state, TerminalState { generation: 3, session: None });
}

#[test]
fn reading_stops_at_the_end_and_on_errors() {
    assert_eq!(read_step(None), None);
    assert_eq!(read_step(Some(&[])), None);
    assert_eq!(read_step(Some("prompt ❯ ".as_bytes())), Some("prompt ❯ ".to_string()));
}

#[test]
fn broken_characters_are_replaced() {
    assert_eq!(read_step(Some(&[0x61, 0xff, 0x62])), Some("a\u{fffd}b".to_string()));
    let split = "é".as_bytes();
    assert_eq!(read_step(Some(&split[..1])), Some("\u{fffd}".to_string()));
}

#[test]
fn output_arrives_unchanged() {
    let text = "a❯é😀";
    let mut out = String::new();
    for part in ["a❯", "é", "😀"] {
        out.push_str(&read_step(Some(part.as_bytes())).unwrap());
    }
    assert_eq!(out, text);
}

#[test]
fn what_is_typed_reads_as_typed() {
    let live = TerminalState { generation: 1, session: Some(1) };
    let bytes = terminal_write(&live, "häß 😀").unwrap();
    assert_eq!(read_step(Some(&bytes)), Some("häß 😀".to_string()));
}

#[test]
fn the_command_is_a_login_shell() {
    let login = Login { shell: "/bin/zsh".to_string(), cwd: "/tmp/w".to_string(), has_term: false };
    let command = login.command();
    let argv: Vec<String> =
        command.get_argv().iter().map(|a| a.to_str().unwrap().to_string()).collect();
    assert_eq!(argv, vec!["/bin/zsh".to_string(), "-l".to_string()]);
    assert_eq!(command.get_cwd().unwrap().to_str(), Some("/tmp/w"));
    let extra: Vec<(&str, &str)> = command.iter_extra_env_as_str().collect();
    assert_eq!(extra, vec![("TERM", "xterm-256color")]);
}

#[test]
fn a_terminal_type_of_the_environment_is_kept() {
    let login = Login { shell: "/bin/sh".to_string(), cwd: "/".to_string(), has_term: true };
    let command = login.command();
    assert_eq!(command.get_argv().len(), 2);
    assert_eq!(command.iter_extra_env_as_str().count(), 0);
}

#[test]
fn the_shell_falls_back() {
    assert_eq!(shell_or_default(&None), "/bin/zsh");
    assert_eq!(shell_or_default(&Some("/bin/bash".to_string())), "/bin/bash");
}

#[test]
fn keystrokes_are_flushed_once_written() {
    assert_eq!(write_step(WritePhase::Writing, Ok(())), WriteStatus::Flush);
    assert_eq!(write_step(WritePhase::Flushing, Ok(())), WriteStatus::Finished { result: Ok(()) });
    for phase in [WritePhase::Writing, WritePhase::Flushing] {
        assert_eq!(
            write_step(phase, Err("broken pipe".to_string())),
            WriteStatus::Finished { result: Err("broken pipe".to_string()) }
        );
    }
}

#[test]
fn commands_hand_their_error_on() {
    assert_eq!(terminal_result(None), Ok(()));
    assert_eq!(terminal_result(Some(Ok(()))), Ok(()));
    assert_eq!(terminal_result(Some(Err("no such device".to_string()))), Err("no such device".to_string()));
}

#[test]
fn the_platform_decides_the_separator() {
    let environment = Environment {
        home: Some("C:\\Users\\u".to_string()),
        shell: None,
        has_term: true,
        unix: false,
    };
    let (_, effects) = terminal_spawn("~/WordPuppi", &environment).unwrap();
    assert_eq!(
        effects,
        vec![SpawnEffect::CreateDir { path: "C:\\Users\\u\\WordPuppi".to_string() }]
    );
}

#[test]
fn the_page_listens_for_these_events() {
    assert_eq!(Notice::Data { chunk: "x".to_string() }.event(), "terminal://data");
    assert_eq!(Notice::Exit { report: ExitPayload { code: 1 } }.event(), "terminal://exit");
    assert_eq!(DATA_EVENT, "terminal://data");
    assert_eq!(EXIT_EVENT, "terminal://exit");
}
