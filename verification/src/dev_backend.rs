//! The local backend of debug builds: started with the application and stopped
//! with it, unless one was running already.
use vstd::prelude::*;
use vstd::string::*;
use crate::text::decimal_text;

verus! {

/// Where the local backend listens.
pub const BACKEND_HOST: &'static str = "127.0.0.1";

/// The port that the local backend listens on.
pub const BACKEND_PORT: u16 = 5150;

/// The diagnostic line for a backend that was running already.
pub const FOUND_LINE: &'static str =
    "[wpp-desktop] backend already on :5150 — leaving its lifecycle alone";

/// The diagnostic line for a backend that was stopped.
pub const STOPPED_LINE: &'static str = "[wpp-desktop] local backend stopped";

/// The backend process that the application started, by its process id; none
/// where it is not the application's to stop.
#[derive(Clone, Copy, PartialEq, Eq, Structural, Debug)]
pub struct DevBackend {
    pub child: Option<u32>,
}

/// A program to run.
#[derive(Debug, PartialEq, Eq)]
pub struct Program {
    pub name: String,
    pub args: Vec<String>,
}

/// The words of a command line, the program first.
pub open spec fn words_of(program: Program) -> Seq<Seq<char>> {
    seq![program.name@] + program.args@.map_values(|arg: String| arg@)
}

/// A backend to start.
#[derive(Debug, PartialEq, Eq)]
pub struct Launch {
    pub program: Program,
    /// The directory to run it in.
    pub dir: String,
    /// Whether it gets a process group of its own, so that the server that it
    /// starts in turn can be stopped with it.
    pub own_group: bool,
}

/// What stopping the backend takes.
#[derive(Debug, PartialEq, Eq)]
pub enum Stop {
    /// Run this program, which signals the whole process group.
    Signal { program: Program },
    /// End the process itself.
    KillChild,
}

/// The command line that starts the backend.
pub open spec fn launch_words() -> Seq<Seq<char>> {
    seq![
        "cargo"@,
        "run"@,
        "--package"@,
        "wpp-core"@,
        "--bin"@,
        "wpp_core-cli"@,
        "--"@,
        "start"@,
    ]
}

/// The command line that stops the process group of `child`: a negative
/// process id stands for the group.
pub open spec fn stop_words(child: u32) -> Seq<Seq<char>> {
    seq!["kill"@, "-TERM"@, "-"@ + crate::text::decimal(child as nat)]
}

/// The diagnostic line about an attempt to start the backend.
pub open spec fn spawn_line(outcome: Result<u32, String>) -> Seq<char> {
    match outcome {
        Ok(child) => "[wpp-desktop] spawned local backend (pgid "@ + crate::text::decimal(
            child as nat,
        ) + ")"@,
        Err(error) => "[wpp-desktop] failed to spawn local backend: "@ + error@,
    }
}

/// What to start, given whether something is `listening` on the port already:
/// nothing then, and otherwise the backend from the sources three levels above
/// `manifest_dir`. Only Unix has process groups.
pub fn spawn(listening: bool, manifest_dir: &str, unix: bool) -> (r: Option<Launch>)
    ensures
        match r {
            Some(launch) => {
                &&& !listening
                &&& words_of(launch.program) == launch_words()
                &&& launch.dir@ == manifest_dir@ + "/../../.."@
                &&& launch.own_group == unix
            },
            None => listening,
        },
{
    if listening {
        return None;
    }
    let mut args: Vec<String> = Vec::new();
    args.push(String::from_str("run"));
    args.push(String::from_str("--package"));
    args.push(String::from_str("wpp-core"));
    args.push(String::from_str("--bin"));
    args.push(String::from_str("wpp_core-cli"));
    args.push(String::from_str("--"));
    args.push(String::from_str("start"));
    let program: Program = Program { name: String::from_str("cargo"), args };
    assert(words_of(program) =~= launch_words());
    Some(
        Launch {
            program,
            dir: String::from_str(manifest_dir).concat("/../../.."),
            own_group: unix,
        },
    )
}

/// The diagnostic line about a backend that runs already: one exactly where
/// something is `listening` on the port.
pub fn found(listening: bool) -> (r: Option<&'static str>)
    ensures
        r is Some <==> listening,
        r matches Some(line) ==> line@ == FOUND_LINE@,
{
    if listening {
        Some(FOUND_LINE)
    } else {
        None
    }
}

/// The outcome of starting the backend: the process that is now the
/// application's to stop, if it came up, and the diagnostic line.
pub fn spawned(outcome: Result<u32, String>) -> (r: (DevBackend, String))
    ensures
        r.0.child == (match outcome {
            Ok(child) => Some(child),
            Err(_) => None,
        }),
        r.1@ == spawn_line(outcome),
{
    match outcome {
        Ok(child) => (
            DevBackend { child: Some(child) },
            String::from_str("[wpp-desktop] spawned local backend (pgid ").concat(
                decimal_text(child).as_str(),
            ).concat(")"),
        ),
        Err(error) => (
            DevBackend { child: None },
            String::from_str("[wpp-desktop] failed to spawn local backend: ").concat(
                error.as_str(),
            ),
        ),
    }
}

/// How to stop the backend that runs as `child`.
pub fn kill(child: u32, unix: bool) -> (r: Stop)
    ensures
        match r {
            Stop::Signal { program } => unix && words_of(program) == stop_words(child),
            Stop::KillChild => !unix,
        },
{
    if unix {
        let mut args: Vec<String> = Vec::new();
        args.push(String::from_str("-TERM"));
        args.push(String::from_str("-").concat(decimal_text(child).as_str()));
        let program: Program = Program { name: String::from_str("kill"), args };
        assert(words_of(program) =~= stop_words(child));
        Stop::Signal { program }
    } else {
        Stop::KillChild
    }
}

/// Something the shell does to stop the backend. What comes of it does not
/// matter for what follows.
#[derive(Debug, PartialEq, Eq)]
pub enum StopEffect {
    /// Has the process, or its group, end.
    End { stop: Stop },
    /// Waits until the process is gone.
    Wait,
    /// Writes a diagnostic line.
    Log { line: &'static str },
}

/// All that stopping the backend takes, in order: the process is told to end,
/// then waited for, and then a line says so.
pub fn stop_effects(child: u32, unix: bool) -> (r: Vec<StopEffect>)
    ensures
        r@.len() == 3,
        match r@[0] {
            StopEffect::End { stop: Stop::Signal { program } } => unix && words_of(program)
                == stop_words(child),
            StopEffect::End { stop: Stop::KillChild } => !unix,
            _ => false,
        },
        r@[1] is Wait,
        r@[2] matches StopEffect::Log { line } && line@ == STOPPED_LINE@,
{
    let mut effects: Vec<StopEffect> = Vec::new();
    effects.push(StopEffect::End { stop: kill(child, unix) });
    effects.push(StopEffect::Wait);
    effects.push(StopEffect::Log { line: STOPPED_LINE });
    effects
}

impl DevBackend {
    /// A backend that is not the application's to stop.
    pub open spec fn not_ours() -> Self {
        DevBackend { child: None }
    }

    /// A backend that is not the application's to stop.
    pub fn none() -> (r: Self)
        ensures
            r == DevBackend::not_ours(),
    {
        DevBackend { child: None }
    }

    /// Hands over the process to stop, which is then no longer kept.
    pub fn take(&mut self) -> (r: Option<u32>)
        ensures
            r == old(self).child,
            *final(self) == DevBackend::not_ours(),
    {
        let child: Option<u32> = self.child;
        self.child = None;
        child
    }
}

/// The signal goes to the process group of the backend that was started, and
/// to that of no other.
pub proof fn law_stop_names_one_group(a: u32, b: u32)
    requires
        stop_words(a) == stop_words(b),
    ensures
        a == b,
{
    let left = stop_words(a)[2];
    let right = stop_words(b)[2];
    reveal_strlit("-");
    assert(left.skip(1) =~= crate::text::decimal(a as nat));
    assert(right.skip(1) =~= crate::text::decimal(b as nat));
    crate::text::law_decimal_is_injective(a as nat, b as nat);
}

/// A command line is the program and then its arguments, in order.
pub proof fn law_words_are_program_and_arguments(program: Program)
    ensures
        words_of(program).len() == program.args@.len() + 1,
        words_of(program)[0] == program.name@,
        forall|i: int|
            0 <= i < program.args@.len() ==> #[trigger] words_of(program)[i + 1]
                == program.args@[i]@,
{
}

/// Stopping sends the terminating signal to the process group of `child`: the
/// last word is a minus and the number of the process.
pub proof fn law_stop_signals_the_group(child: u32)
    ensures
        stop_words(child).len() == 3,
        stop_words(child)[0] == "kill"@,
        stop_words(child)[1] == "-TERM"@,
        stop_words(child)[2].len() > 1,
        stop_words(child)[2][0] == '-',
        crate::text::number(stop_words(child)[2].skip(1)) == child,
{
    reveal_strlit("-");
    let word = stop_words(child)[2];
    assert(word.skip(1) =~= crate::text::decimal(child as nat));
    crate::text::law_numeral_reads_back(child as nat);
}

/// The line about a start names the process that came up, or the error that
/// kept it from coming up.
pub proof fn law_start_is_logged(child: u32, error: String)
    ensures
        spawn_line(Ok(child)) == "[wpp-desktop] spawned local backend (pgid "@
            + crate::text::decimal(child as nat) + ")"@,
        spawn_line(Err(error)) == "[wpp-desktop] failed to spawn local backend: "@ + error@,
{
}

/// The backend is always started with the same command line.
pub proof fn law_backend_is_run_by_cargo(program: Program)
    requires
        words_of(program) == launch_words(),
    ensures
        program.name@ == "cargo"@,
        program.args@.map_values(|arg: String| arg@) == seq![
            "run"@,
            "--package"@,
            "wpp-core"@,
            "--bin"@,
            "wpp_core-cli"@,
            "--"@,
            "start"@,
        ],
{
    assert(words_of(program)[0] == "cargo"@);
    assert(program.args@.map_values(|arg: String| arg@) =~= words_of(program).skip(1));
    assert(launch_words().skip(1) =~= seq![
        "run"@,
        "--package"@,
        "wpp-core"@,
        "--bin"@,
        "wpp_core-cli"@,
        "--"@,
        "start"@,
    ]);
}

/// What is not the application's has no process to stop.
pub proof fn law_what_is_not_ours_has_no_process(backend: DevBackend)
    ensures
        backend == DevBackend::not_ours() <==> backend.child is None,
{
}

/// A backend is started exactly where nothing listens yet: by cargo, three levels
/// above the manifest, and on Unix in a process group of its own.
pub proof fn law_backend_is_started_where_none_listens(
    listening: bool,
    manifest_dir: &str,
    unix: bool,
    r: Option<Launch>,
)
    requires
        call_ensures(spawn, (listening, manifest_dir, unix), r),
    ensures
        r is Some <==> !listening,
        r matches Some(launch) ==> {
            &&& launch.dir@ == manifest_dir@ + "/../../.."@
            &&& launch.own_group == unix
            &&& launch.program.name@ == "cargo"@
            &&& launch.program.args@.map_values(|arg: String| arg@) == seq![
                "run"@,
                "--package"@,
                "wpp-core"@,
                "--bin"@,
                "wpp_core-cli"@,
                "--"@,
                "start"@,
            ]
        },
{
    if r is Some {
        law_backend_is_run_by_cargo(r->0.program);
    }
}

/// A start that came up leaves its process to stop, one that did not leaves none,
/// and the line tells which it was.
pub proof fn law_started_process_is_kept(outcome: Result<u32, String>, r: (DevBackend, String))
    requires
        call_ensures(spawned, (outcome,), r),
    ensures
        outcome matches Ok(child) ==> r.0.child == Some(child) && r.1@
            == "[wpp-desktop] spawned local backend (pgid "@ + crate::text::decimal(child as nat)
            + ")"@,
        outcome matches Err(error) ==> r.0.child is None && r.1@
            == "[wpp-desktop] failed to spawn local backend: "@ + error@,
{
}

/// On Unix the process group of the child is told to terminate, elsewhere the
/// child itself is ended; either way it is then waited for, and a line says so.
pub proof fn law_stopping_ends_waits_and_tells(
    child: u32,
    unix: bool,
    stop: Stop,
    r: Vec<StopEffect>,
)
    requires
        call_ensures(kill, (child, unix), stop),
        call_ensures(stop_effects, (child, unix), r),
    ensures
        stop is Signal <==> unix,
        stop matches Stop::Signal { program } ==> {
            &&& program.name@ == "kill"@
            &&& program.args@.len() == 2
            &&& program.args@[0]@ == "-TERM"@
            &&& program.args@[1]@ == "-"@ + crate::text::decimal(child as nat)
        },
        r@.len() == 3,
        r@[0] is End,
        r@[0]->stop is Signal <==> unix,
        r@[0]->stop matches Stop::Signal { program } ==> {
            &&& program.name@ == "kill"@
            &&& program.args@.len() == 2
            &&& program.args@[0]@ == "-TERM"@
            &&& program.args@[1]@ == "-"@ + crate::text::decimal(child as nat)
        },
        r@[1] is Wait,
        r@[2] matches StopEffect::Log { line } && line@ == "[wpp-desktop] local backend stopped"@,
{
    if stop is Signal {
        lemma_stop_program(stop->program, child);
    }
    if r@[0]->stop is Signal {
        lemma_stop_program(r@[0]->stop->program, child);
    }
}

proof fn lemma_stop_program(program: Program, child: u32)
    requires
        words_of(program) == stop_words(child),
    ensures
        program.name@ == "kill"@,
        program.args@.len() == 2,
        program.args@[0]@ == "-TERM"@,
        program.args@[1]@ == "-"@ + crate::text::decimal(child as nat),
{
    law_words_are_program_and_arguments(program);
    let words = words_of(program);
    assert(words.len() == 3);
    assert(words[1] == program.args@[0]@);
    assert(words[2] == program.args@[1]@);
}

/// A line is written exactly where a backend was found running.
pub proof fn law_found_backend_is_logged(listening: bool, r: Option<&'static str>)
    requires
        call_ensures(found, (listening,), r),
    ensures
        r is Some <==> listening,
        r matches Some(line) ==> line@
            == "[wpp-desktop] backend already on :5150 — leaving its lifecycle alone"@,
{
}

/// A process is handed over once: what it was, and none from then on.
pub proof fn law_process_is_handed_over_once(fresh: DevBackend)
    requires
        call_ensures(DevBackend::none, (), fresh),
    ensures
        fresh.child is None,
        forall|backend: &mut DevBackend, r: Option<u32>| #[trigger]
            call_ensures(DevBackend::take, (backend,), r) ==> r == backend.child
                && final(backend).child is None,
{
}

} // verus!
