//! The terminal dock: one live session at a time, each known by its generation.
//!
//! A session claims a new generation when it starts, and closing the dock
//! claims one too. A shell that exits is reported only while its generation is
//! still the current one, so a session that was closed or replaced goes
//! without a word.
use vstd::prelude::*;
use vstd::string::*;
use vstd::utf8::*;
use crate::command::{shell_or_default, Login};
use crate::workspace::{create_failure_text, workspace_dir};

verus! {

/// The event that brings the page what the terminal printed.
pub const DATA_EVENT: &'static str = "terminal://data";

/// The event that tells the page that the shell exited.
pub const EXIT_EVENT: &'static str = "terminal://exit";

/// The size of a terminal, in cells and in pixels.
#[derive(Clone, Copy, PartialEq, Eq, Structural, Debug)]
pub struct TerminalSize {
    pub rows: u16,
    pub cols: u16,
    pub pixel_width: u16,
    pub pixel_height: u16,
}

/// A terminal of `rows` by `cols` cells and no known size in pixels.
pub open spec fn cells(rows: u16, cols: u16) -> TerminalSize {
    TerminalSize { rows, cols, pixel_width: 0, pixel_height: 0 }
}

/// The report of a shell that exited.
#[derive(Clone, Copy, PartialEq, Eq, Structural, Debug)]
pub struct ExitPayload {
    pub code: u32,
}

/// The dock: the current generation, and the generation of the live session.
#[derive(Clone, Copy, PartialEq, Eq, Structural, Debug)]
pub struct TerminalState {
    pub generation: u64,
    pub session: Option<u64>,
}

/// What the dock reads of the process environment and the platform.
pub struct Environment {
    /// The home directory, if it is known.
    pub home: Option<String>,
    /// The user's shell, if it is known.
    pub shell: Option<String>,
    /// Whether a terminal type is set.
    pub has_term: bool,
    /// Whether the platform is Unix.
    pub unix: bool,
}

/// Something the shell does to start a session.
#[derive(Debug, PartialEq, Eq)]
pub enum SpawnEffect<T> {
    /// Creates the directory and its parents.
    CreateDir { path: T },
    /// Ends the process of the session that was live so far.
    KillSession,
    /// Opens a terminal of this size.
    OpenPty { size: TerminalSize },
    /// Starts the shell on the terminal.
    Launch { login: Login<T> },
    /// Lets go of the shell's end, so that reading ends when the shell does.
    DropSlave,
    /// Gets the reading end of the terminal.
    CloneReader,
    /// Gets the writing end of the terminal.
    TakeWriter,
    /// Keeps the ends of the terminal as those of the live session.
    StoreSession,
    /// Starts to pass on what the terminal prints.
    StartReader,
    /// Waits for the shell to exit, on behalf of this generation.
    StartWaiter { generation: u64 },
}

/// How far the start of a session has come. Each phase waits for the outcome
/// of the last effect.
#[derive(Debug, PartialEq, Eq)]
pub enum SpawnPhase {
    CreatingDir,
    OpeningPty { generation: u64 },
    Launching { generation: u64 },
    CloningReader { generation: u64 },
    TakingWriter { generation: u64 },
}

/// A session that is being started.
#[derive(Debug, PartialEq, Eq)]
pub struct Spawn<T> {
    pub login: Login<T>,
    pub phase: SpawnPhase,
}

/// Where the start of a session stands.
#[derive(Debug, PartialEq, Eq)]
pub enum SpawnStatus<T> {
    /// It waits for the outcome of the last effect.
    Running { spawn: Spawn<T> },
    /// It is over: with a live session, or with the reason why not.
    Finished { result: Result<(), T> },
}

impl View for SpawnEffect<String> {
    type V = SpawnEffect<Seq<char>>;

    open spec fn view(&self) -> SpawnEffect<Seq<char>> {
        match *self {
            SpawnEffect::CreateDir { path } => SpawnEffect::CreateDir { path: path@ },
            SpawnEffect::KillSession => SpawnEffect::KillSession,
            SpawnEffect::OpenPty { size } => SpawnEffect::OpenPty { size },
            SpawnEffect::Launch { login } => SpawnEffect::Launch { login: login@ },
            SpawnEffect::DropSlave => SpawnEffect::DropSlave,
            SpawnEffect::CloneReader => SpawnEffect::CloneReader,
            SpawnEffect::TakeWriter => SpawnEffect::TakeWriter,
            SpawnEffect::StoreSession => SpawnEffect::StoreSession,
            SpawnEffect::StartReader => SpawnEffect::StartReader,
            SpawnEffect::StartWaiter { generation } => SpawnEffect::StartWaiter { generation },
        }
    }
}

impl View for Spawn<String> {
    type V = Spawn<Seq<char>>;

    open spec fn view(&self) -> Spawn<Seq<char>> {
        Spawn { login: self.login@, phase: self.phase }
    }
}

impl View for SpawnStatus<String> {
    type V = SpawnStatus<Seq<char>>;

    open spec fn view(&self) -> SpawnStatus<Seq<char>> {
        match *self {
            SpawnStatus::Running { spawn } => SpawnStatus::Running { spawn: spawn@ },
            SpawnStatus::Finished { result } => SpawnStatus::Finished { result: outcome_of(result) },
        }
    }
}

/// A result with its error as characters.
pub open spec fn outcome_of(outcome: Result<(), String>) -> Result<(), Seq<char>> {
    match outcome {
        Ok(()) => Ok(()),
        Err(error) => Err(error@),
    }
}

/// The effects in `effects`, in order.
pub open spec fn spawn_effects_of(effects: Seq<SpawnEffect<String>>) -> Seq<
    SpawnEffect<Seq<char>>,
> {
    effects.map_values(|e: SpawnEffect<String>| e@)
}

/// The generation that follows `generation`; after the last comes the first.
pub open spec fn next_generation(generation: u64) -> u64 {
    if generation == u64::MAX {
        0
    } else {
        (generation + 1) as u64
    }
}

/// The size that a terminal opens with.
pub open spec fn opening_size() -> TerminalSize {
    cells(24, 80)
}

impl TerminalState {
    /// No session yet.
    pub open spec fn initial() -> Self {
        TerminalState { generation: 0, session: None }
    }

    /// The dock after a new generation was claimed: no session is live.
    pub open spec fn superseded(self) -> Self {
        TerminalState { generation: next_generation(self.generation), session: None }
    }

    /// What is reported of the shell of `generation` that exited with `code`,
    /// if its exit code could be had.
    pub open spec fn exit_of(self, generation: u64, code: Option<u32>) -> Option<ExitPayload> {
        if self.generation == generation {
            Some(
                ExitPayload {
                    code: match code {
                        Some(c) => c,
                        None => 0,
                    },
                },
            )
        } else {
            None
        }
    }
}

impl Spawn<Seq<char>> {
    /// The start of a session in `cwd`.
    pub open spec fn begun(cwd: Seq<char>, shell: Option<Seq<char>>, has_term: bool) -> Self {
        Spawn {
            login: Login { shell: crate::command::chosen_shell(shell), cwd, has_term },
            phase: SpawnPhase::CreatingDir,
        }
    }

    /// The same start, in `phase`.
    pub open spec fn at(self, phase: SpawnPhase) -> SpawnStatus<Seq<char>> {
        SpawnStatus::Running { spawn: Spawn { login: self.login, phase } }
    }

    /// What a failure is reported as.
    pub open spec fn failure(self, error: Seq<char>) -> Seq<char> {
        if self.phase is CreatingDir {
            crate::workspace::create_failure(self.login.cwd, error)
        } else {
            error
        }
    }

    /// What a success of the last effect does to the dock, what comes next,
    /// and which effects.
    pub open spec fn advanced(self, state: TerminalState) -> (
        TerminalState,
        SpawnStatus<Seq<char>>,
        Seq<SpawnEffect<Seq<char>>>,
    ) {
        match self.phase {
            SpawnPhase::CreatingDir => {
                let claimed = state.superseded();
                let open = SpawnEffect::OpenPty { size: opening_size() };
                (
                    claimed,
                    self.at(SpawnPhase::OpeningPty { generation: claimed.generation }),
                    if state.session is Some {
                        seq![SpawnEffect::KillSession, open]
                    } else {
                        seq![open]
                    },
                )
            },
            SpawnPhase::OpeningPty { generation } => (
                state,
                self.at(SpawnPhase::Launching { generation }),
                seq![SpawnEffect::Launch { login: self.login }],
            ),
            SpawnPhase::Launching { generation } => (
                state,
                self.at(SpawnPhase::CloningReader { generation }),
                seq![SpawnEffect::DropSlave, SpawnEffect::CloneReader],
            ),
            SpawnPhase::CloningReader { generation } => (
                state,
                self.at(SpawnPhase::TakingWriter { generation }),
                seq![SpawnEffect::TakeWriter],
            ),
            SpawnPhase::TakingWriter { generation } => (
                TerminalState { generation: state.generation, session: Some(generation) },
                SpawnStatus::Finished { result: Ok(()) },
                seq![
                    SpawnEffect::StoreSession,
                    SpawnEffect::StartReader,
                    SpawnEffect::StartWaiter { generation },
                ],
            ),
        }
    }

    /// What the outcome of the last effect does to the dock, what comes next,
    /// and which effects. A failure ends the start and leaves the dock as it
    /// is.
    pub open spec fn stepped(self, state: TerminalState, outcome: Result<(), Seq<char>>) -> (
        TerminalState,
        SpawnStatus<Seq<char>>,
        Seq<SpawnEffect<Seq<char>>>,
    ) {
        match outcome {
            Ok(()) => self.advanced(state),
            Err(error) => (
                state,
                SpawnStatus::Finished { result: Err(self.failure(error)) },
                seq![],
            ),
        }
    }
}

fn one_effect(effect: SpawnEffect<String>) -> (r: Vec<SpawnEffect<String>>)
    ensures
        spawn_effects_of(r@) == seq![effect@],
{
    let mut r: Vec<SpawnEffect<String>> = Vec::new();
    r.push(effect);
    assert(spawn_effects_of(r@) =~= seq![effect@]);
    r
}

/// Starts a session in the directory that `cwd` names: the first effect
/// creates it. A directory that cannot be told is the only reason to refuse
/// at once.
pub fn terminal_spawn(cwd: &str, environment: &Environment) -> (r: Result<
    (Spawn<String>, Vec<SpawnEffect<String>>),
    String,
>)
    ensures
        match (
            r,
            crate::workspace::expanded(
                cwd@,
                crate::text::text_of(environment.home),
                environment.unix,
            ),
        ) {
            (Ok((spawn, effects)), Some(path)) => {
                &&& spawn@ == Spawn::begun(
                    path,
                    crate::text::text_of(environment.shell),
                    environment.has_term,
                )
                &&& spawn_effects_of(effects@) == seq![SpawnEffect::CreateDir { path }]
            },
            (Err(message), None) => message@ == crate::workspace::NO_HOME@,
            _ => false,
        },
{
    let home: Option<&str> = match &environment.home {
        Some(h) => Some(h.as_str()),
        None => None,
    };
    match workspace_dir(cwd, home, environment.unix) {
        Ok(path) => {
            let effects: Vec<SpawnEffect<String>> = one_effect(
                SpawnEffect::CreateDir { path: path.clone() },
            );
            let login: Login<String> = Login {
                shell: shell_or_default(&environment.shell),
                cwd: path,
                has_term: environment.has_term,
            };
            Ok((Spawn { login, phase: SpawnPhase::CreatingDir }, effects))
        },
        Err(message) => Err(message),
    }
}

impl Spawn<String> {
    fn succeeded(self, state: &mut TerminalState) -> (r: (
        SpawnStatus<String>,
        Vec<SpawnEffect<String>>,
    ))
        ensures
            (*final(state), r.0@, spawn_effects_of(r.1@)) == self@.advanced(*old(state)),
    {
        let login: Login<String> = self.login;
        match self.phase {
            SpawnPhase::CreatingDir => {
                let (generation, replaced): (u64, bool) = state.supersede();
                let mut effects: Vec<SpawnEffect<String>> = Vec::new();
                if replaced {
                    effects.push(SpawnEffect::KillSession);
                }
                effects.push(
                    SpawnEffect::OpenPty {
                        size: TerminalSize { rows: 24, cols: 80, pixel_width: 0, pixel_height: 0 },
                    },
                );
                assert(spawn_effects_of(effects@) =~= self@.advanced(*old(state)).2);
                let spawn: Spawn<String> = Spawn {
                    login,
                    phase: SpawnPhase::OpeningPty { generation },
                };
                (SpawnStatus::Running { spawn }, effects)
            },
            SpawnPhase::OpeningPty { generation } => {
                let copy: Login<String> = Login {
                    shell: login.shell.clone(),
                    cwd: login.cwd.clone(),
                    has_term: login.has_term,
                };
                let spawn: Spawn<String> = Spawn {
                    login,
                    phase: SpawnPhase::Launching { generation },
                };
                (SpawnStatus::Running { spawn }, one_effect(SpawnEffect::Launch { login: copy }))
            },
            SpawnPhase::Launching { generation } => {
                let mut effects: Vec<SpawnEffect<String>> = Vec::new();
                effects.push(SpawnEffect::DropSlave);
                effects.push(SpawnEffect::CloneReader);
                assert(spawn_effects_of(effects@) =~= self@.advanced(*old(state)).2);
                let spawn: Spawn<String> = Spawn {
                    login,
                    phase: SpawnPhase::CloningReader { generation },
                };
                (SpawnStatus::Running { spawn }, effects)
            },
            SpawnPhase::CloningReader { generation } => {
                let spawn: Spawn<String> = Spawn {
                    login,
                    phase: SpawnPhase::TakingWriter { generation },
                };
                (SpawnStatus::Running { spawn }, one_effect(SpawnEffect::TakeWriter))
            },
            SpawnPhase::TakingWriter { generation } => {
                state.session = Some(generation);
                let mut effects: Vec<SpawnEffect<String>> = Vec::new();
                effects.push(SpawnEffect::StoreSession);
                effects.push(SpawnEffect::StartReader);
                effects.push(SpawnEffect::StartWaiter { generation });
                assert(spawn_effects_of(effects@) =~= self@.advanced(*old(state)).2);
                (SpawnStatus::Finished { result: Ok(()) }, effects)
            },
        }
    }

    /// Takes the outcome of the last effect and hands out what to do next.
    pub fn step(self, state: &mut TerminalState, outcome: Result<(), String>) -> (r: (
        SpawnStatus<String>,
        Vec<SpawnEffect<String>>,
    ))
        ensures
            (*final(state), r.0@, spawn_effects_of(r.1@)) == self@.stepped(
                *old(state),
                outcome_of(outcome),
            ),
    {
        match outcome {
            Ok(()) => self.succeeded(state),
            Err(error) => {
                let message: String = match self.phase {
                    SpawnPhase::CreatingDir => create_failure_text(
                        self.login.cwd.as_str(),
                        error.as_str(),
                    ),
                    _ => error,
                };
                let effects: Vec<SpawnEffect<String>> = Vec::new();
                assert(spawn_effects_of(effects@) =~= Seq::<SpawnEffect<Seq<char>>>::empty());
                (SpawnStatus::Finished { result: Err(message) }, effects)
            },
        }
    }
}

impl Default for TerminalState {
    /// No session yet.
    fn default() -> (r: Self)
        ensures
            r == TerminalState::initial(),
    {
        TerminalState { generation: 0, session: None }
    }
}

impl TerminalState {
    /// Claims the next generation and gives up the live session. Returns the
    /// generation, and whether there was a session to give up.
    fn supersede(&mut self) -> (r: (u64, bool))
        ensures
            *final(self) == old(self).superseded(),
            r.0 == final(self).generation,
            r.1 == (old(self).session is Some),
    {
        let live: bool = self.session.is_some();
        self.generation = self.generation.wrapping_add(1);
        self.session = None;
        (self.generation, live)
    }

    /// The shell of `generation` has exited: the report, if that session is
    /// still the current one. An exit code that cannot be had counts as 0.
    pub fn exit_report(&self, generation: u64, code: Option<u32>) -> (r: Option<ExitPayload>)
        ensures
            r == self.exit_of(generation, code),
            r is Some <==> self.generation == generation,
            r matches Some(report) ==> match code {
                Some(c) => report.code == c,
                None => report.code == 0,
            },
    {
        if self.generation == generation {
            let code: u32 = match code {
                Some(c) => c,
                None => 0,
            };
            Some(ExitPayload { code })
        } else {
            None
        }
    }
}

/// Keystrokes for the terminal: the bytes to write, if a session is live.
pub fn terminal_write(state: &TerminalState, data: &str) -> (r: Option<Vec<u8>>)
    ensures
        match r {
            Some(bytes) => state.session is Some && bytes@ == encode_utf8(data@),
            None => state.session is None,
        },
{
    if state.session.is_some() {
        Some(data.as_bytes_vec())
    } else {
        None
    }
}

/// What the bytes for the terminal go through.
#[derive(Clone, Copy, PartialEq, Eq, Structural, Debug)]
pub enum WritePhase {
    /// All of them are being written.
    Writing,
    /// What was written is being flushed.
    Flushing,
}

/// Where the writing stands.
#[derive(Debug, PartialEq, Eq)]
pub enum WriteStatus<T> {
    /// The terminal is to be flushed.
    Flush,
    /// It is over.
    Finished { result: Result<(), T> },
}

impl View for WriteStatus<String> {
    type V = WriteStatus<Seq<char>>;

    open spec fn view(&self) -> WriteStatus<Seq<char>> {
        match *self {
            WriteStatus::Flush => WriteStatus::Flush,
            WriteStatus::Finished { result } => WriteStatus::Finished { result: outcome_of(result) },
        }
    }
}

/// What follows upon `outcome` in `phase`: a success leads from the writing to
/// the flush and from there to the end, and an error ends it as it is.
pub open spec fn write_stepped(phase: WritePhase, outcome: Result<(), Seq<char>>) -> WriteStatus<
    Seq<char>,
> {
    if phase is Writing && outcome is Ok {
        WriteStatus::Flush
    } else {
        WriteStatus::Finished { result: outcome }
    }
}

/// Takes the outcome of writing or flushing and says what comes next.
pub fn write_step(phase: WritePhase, outcome: Result<(), String>) -> (r: WriteStatus<String>)
    ensures
        r@ == write_stepped(phase, outcome_of(outcome)),
        r is Flush <==> phase is Writing && outcome is Ok,
        r matches WriteStatus::Finished { result } ==> match (outcome, result) {
            (Ok(()), Ok(())) => true,
            (Err(error), Err(told)) => told@ == error@,
            _ => false,
        },
{
    match (phase, outcome) {
        (WritePhase::Writing, Ok(())) => WriteStatus::Flush,
        (_, result) => WriteStatus::Finished { result },
    }
}

/// What a command on the terminal returns: success where no session is live
/// and so nothing was done, and otherwise what came of it.
pub fn terminal_result(done: Option<Result<(), String>>) -> (r: Result<(), String>)
    ensures
        outcome_of(r) == (match done {
            Some(outcome) => outcome_of(outcome),
            None => Ok(()),
        }),
        done is None ==> r is Ok,
        done matches Some(outcome) ==> match (outcome, r) {
            (Ok(()), Ok(())) => true,
            (Err(error), Err(told)) => told@ == error@,
            _ => false,
        },
{
    match done {
        Some(outcome) => outcome,
        None => Ok(()),
    }
}

/// The dock has room for `rows` by `cols` cells: the size to set, if a session
/// is live.
pub fn terminal_resize(state: &TerminalState, rows: u16, cols: u16) -> (r: Option<TerminalSize>)
    ensures
        r == (if state.session is Some {
            Some(cells(rows, cols))
        } else {
            None
        }),
        r is Some <==> state.session is Some,
        r matches Some(size) ==> size.rows == rows && size.cols == cols && size.pixel_width == 0
            && size.pixel_height == 0,
{
    if state.session.is_some() {
        Some(TerminalSize { rows, cols, pixel_width: 0, pixel_height: 0 })
    } else {
        None
    }
}

/// The dock is closed. Returns whether there is a session to end.
pub fn terminal_kill(state: &mut TerminalState) -> (r: bool)
    ensures
        *final(state) == old(state).superseded(),
        final(state).session is None,
        final(state).generation != old(state).generation,
        r == (old(state).session is Some),
{
    let (_, live): (u64, bool) = state.supersede();
    live
}

/// The text that stands for `bytes`, with replacement characters where they
/// are not UTF-8.
pub uninterp spec fn lossy_text(bytes: Seq<u8>) -> Seq<char>;

/// Whether `text` stands for `bytes`; bytes that are UTF-8 stand for what they
/// encode.
pub open spec fn reads_as(bytes: Seq<u8>, text: Seq<char>) -> bool {
    &&& text == lossy_text(bytes)
    &&& valid_utf8(bytes) ==> text == decode_utf8(bytes)
}

/// Calls `String::from_utf8_lossy`: the text depends on the bytes alone, and
/// bytes that are UTF-8 give the text that they encode. How other bytes are
/// replaced is left to the name.
#[verifier::external_body]
fn from_utf8_lossy(bytes: &[u8]) -> (r: String)
    ensures
        r@ == lossy_text(bytes@),
        valid_utf8(bytes@) ==> r@ == decode_utf8(bytes@),
{
    String::from_utf8_lossy(bytes).into_owned()
}

/// Something that the page is told of the terminal.
#[derive(Debug, PartialEq, Eq)]
pub enum Notice {
    /// The terminal printed `chunk`.
    Data { chunk: String },
    /// The shell exited.
    Exit { report: ExitPayload },
}

impl Notice {
    /// The event that brings it to the page.
    pub fn event(&self) -> (r: &'static str)
        ensures
            r@ == (match *self {
                Notice::Data { .. } => DATA_EVENT@,
                Notice::Exit { .. } => EXIT_EVENT@,
            }),
    {
        match self {
            Notice::Data { .. } => DATA_EVENT,
            Notice::Exit { .. } => EXIT_EVENT,
        }
    }
}

/// What to pass on of one read from the terminal: `None` ends the reading.
/// `read` holds the bytes that came, or nothing where the read failed.
pub fn read_step(read: Option<&[u8]>) -> (r: Option<String>)
    ensures
        match (r, read) {
            (Some(text), Some(bytes)) => {
                &&& bytes@.len() > 0
                &&& reads_as(bytes@, text@)
                &&& text@ == lossy_text(bytes@)
                &&& valid_utf8(bytes@) ==> text@ == decode_utf8(bytes@)
            },
            (None, Some(bytes)) => bytes@.len() == 0,
            (None, None) => true,
            (Some(_), None) => false,
        },
{
    match read {
        Some(bytes) => {
            if bytes.len() == 0 {
                None
            } else {
                Some(from_utf8_lossy(bytes))
            }
        },
        None => None,
    }
}

} // verus!
