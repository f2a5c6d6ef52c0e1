//! What holds of the terminal dock as a whole.
#[allow(unused_imports)]
use vstd::prelude::*;
#[allow(unused_imports)]
use vstd::utf8::*;
#[allow(unused_imports)]
use crate::terminal::{
    Environment, ExitPayload, Notice, Spawn, SpawnEffect, SpawnPhase, SpawnStatus, TerminalSize, TerminalState, WritePhase,
    WriteStatus,
};

verus! {

/// Whatever changes the dock. Several starts may be under way at once.
pub enum DockEvent {
    /// A start of a session takes a step.
    SpawnStep { spawn: Spawn<Seq<char>>, outcome: Result<(), Seq<char>> },
    /// The dock is closed.
    Kill,
}

/// The dock after one event.
pub open spec fn after(state: TerminalState, event: DockEvent) -> TerminalState {
    match event {
        DockEvent::SpawnStep { spawn, outcome } => spawn.stepped(state, outcome).0,
        DockEvent::Kill => state.superseded(),
    }
}

/// Whether `event` replaces or ends the session that was current.
pub open spec fn supersedes(event: DockEvent) -> bool {
    match event {
        DockEvent::SpawnStep { spawn, outcome } => spawn.phase is CreatingDir && outcome is Ok,
        DockEvent::Kill => true,
    }
}

/// The dock after a run of events.
pub open spec fn after_all(state: TerminalState, events: Seq<DockEvent>) -> TerminalState
    decreases events.len(),
{
    if events.len() == 0 {
        state
    } else {
        after(after_all(state, events.drop_last()), events.last())
    }
}

/// How many of `events` supersede a session.
pub open spec fn times_superseded(events: Seq<DockEvent>) -> nat
    decreases events.len(),
{
    if events.len() == 0 {
        0
    } else {
        times_superseded(events.drop_last()) + if supersedes(events.last()) {
            1nat
        } else {
            0nat
        }
    }
}

/// The number of generations there are before they repeat.
pub open spec fn generations() -> nat {
    0x1_0000_0000_0000_0000
}

/// The generation counts what supersedes, and nothing else.
pub proof fn law_generation_counts(state: TerminalState, events: Seq<DockEvent>)
    ensures
        after_all(state, events).generation == (state.generation + times_superseded(events))
            % generations() as int,
    decreases events.len(),
{
    if events.len() > 0 {
        law_generation_counts(state, events.drop_last());
        let before = after_all(state, events.drop_last());
        let last = events.last();
        let total = state.generation + times_superseded(events.drop_last());
        if supersedes(last) {
            assert(after(before, last).generation == crate::terminal::next_generation(
                before.generation,
            ));
        } else {
            assert(after(before, last).generation == before.generation);
        }
    }
}

/// A session that was closed or replaced never reports its exit (short of the
/// generations running full circle).
pub proof fn law_superseded_session_is_silent(
    state: TerminalState,
    events: Seq<DockEvent>,
    code: Option<u32>,
)
    requires
        0 < times_superseded(events) < generations(),
    ensures
        after_all(state, events).exit_of(state.generation, code) is None,
{
    law_generation_counts(state, events);
}

/// A session that nothing has superseded reports its exit, with the code that
/// the shell returned.
pub proof fn law_genuine_exit_is_reported(
    state: TerminalState,
    events: Seq<DockEvent>,
    code: u32,
)
    requires
        times_superseded(events) == 0,
    ensures
        after_all(state, events).exit_of(state.generation, Some(code)) == Some(
            ExitPayload { code },
        ),
{
    law_generation_counts(state, events);
}

/// Once the dock is closed there is no session left to write to, to resize or
/// to end, and the one that was live goes without a report.
pub proof fn law_kill_ends_the_session(state: TerminalState, code: Option<u32>)
    ensures
        state.superseded().session is None,
        state.superseded().exit_of(state.generation, code) is None,
{
}

/// Whether the live session, if any, is the current one.
pub open spec fn live_is_current(state: TerminalState) -> bool {
    state.session matches Some(generation) ==> generation == state.generation
}

/// A start of a session, run without others in between: the dock and the
/// status after `outcomes`, one for each effect waited for, and all effects.
pub open spec fn course(
    state: TerminalState,
    status: SpawnStatus<Seq<char>>,
    outcomes: Seq<Result<(), Seq<char>>>,
) -> (TerminalState, SpawnStatus<Seq<char>>, Seq<SpawnEffect<Seq<char>>>)
    decreases outcomes.len(),
{
    if outcomes.len() == 0 {
        (state, status, seq![])
    } else {
        match status {
            SpawnStatus::Finished { result } => (state, status, seq![]),
            SpawnStatus::Running { spawn } => {
                let (next, then_status, effects) = spawn.stepped(state, outcomes[0]);
                let (end, end_status, more) = course(next, then_status, outcomes.drop_first());
                (end, end_status, effects + more)
            },
        }
    }
}

/// What a start keeps while it runs alone: until it has claimed a generation
/// the dock is `before`; from then on no session is live until its own is.
pub open spec fn on_course(
    before: TerminalState,
    state: TerminalState,
    status: SpawnStatus<Seq<char>>,
) -> bool {
    let claimed = before.superseded();
    match status {
        SpawnStatus::Running { spawn } => match spawn.phase {
            SpawnPhase::CreatingDir => state == before,
            SpawnPhase::OpeningPty { generation }
            | SpawnPhase::Launching { generation }
            | SpawnPhase::CloningReader { generation }
            | SpawnPhase::TakingWriter { generation } => {
                state == claimed && generation == claimed.generation
            },
        },
        SpawnStatus::Finished { result: Ok(()) } => {
            state == (TerminalState {
                generation: claimed.generation,
                session: Some(claimed.generation),
            })
        },
        SpawnStatus::Finished { result: Err(_) } => state == before || state == claimed,
    }
}

/// A start that runs alone leaves one of three docks behind: with its own
/// session live; with no session, where it failed after the old one was given
/// up; or untouched, where the directory could not be created.
pub proof fn law_start_leaves_one_session_at_most(
    before: TerminalState,
    state: TerminalState,
    status: SpawnStatus<Seq<char>>,
    outcomes: Seq<Result<(), Seq<char>>>,
)
    requires
        on_course(before, state, status),
    ensures
        ({
            let (end, end_status, effects) = course(state, status, outcomes);
            on_course(before, end, end_status)
        }),
    decreases outcomes.len(),
{
    if outcomes.len() > 0 && status is Running {
        let spawn = status->spawn;
        let (next, then_status, effects) = spawn.stepped(state, outcomes[0]);
        law_start_leaves_one_session_at_most(before, next, then_status, outcomes.drop_first());
    }
}

/// While starts run one at a time, the live session is the current one: a
/// start and a kill both keep that.
pub proof fn law_live_session_is_current(
    before: TerminalState,
    spawn: Spawn<Seq<char>>,
    outcomes: Seq<Result<(), Seq<char>>>,
)
    requires
        live_is_current(before),
        spawn.phase is CreatingDir,
    ensures
        live_is_current(course(before, SpawnStatus::Running { spawn }, outcomes).0),
        live_is_current(before.superseded()),
{
    law_start_leaves_one_session_at_most(
        before,
        before,
        SpawnStatus::Running { spawn },
        outcomes,
    );
}

/// A start in which nothing fails ends with its session live, and does this
/// in order: it ends the old session, if there is one, before it opens the
/// terminal, and runs the login shell in the workspace directory.
pub proof fn law_start_that_succeeds(before: TerminalState, spawn: Spawn<Seq<char>>)
    requires
        spawn.phase is CreatingDir,
    ensures
        ({
            let ok: Result<(), Seq<char>> = Ok(());
            let generation = before.superseded().generation;
            let (end, status, effects) = course(
                before,
                SpawnStatus::Running { spawn },
                seq![ok, ok, ok, ok, ok],
            );
            let rest = seq![
                SpawnEffect::OpenPty { size: crate::terminal::opening_size() },
                SpawnEffect::Launch { login: spawn.login },
                SpawnEffect::DropSlave,
                SpawnEffect::CloneReader,
                SpawnEffect::TakeWriter,
                SpawnEffect::StoreSession,
                SpawnEffect::StartReader,
                SpawnEffect::StartWaiter { generation },
            ];
            &&& end == (TerminalState { generation, session: Some(generation) })
            &&& status == (SpawnStatus::<Seq<char>>::Finished { result: Ok(()) })
            &&& effects == if before.session is Some {
                seq![SpawnEffect::<Seq<char>>::KillSession] + rest
            } else {
                rest
            }
        }),
{
    let ok: Result<(), Seq<char>> = Ok(());
    let all = seq![ok, ok, ok, ok, ok];
    assert(all.drop_first() =~= seq![ok, ok, ok, ok]);
    assert(seq![ok, ok, ok, ok].drop_first() =~= seq![ok, ok, ok]);
    assert(seq![ok, ok, ok].drop_first() =~= seq![ok, ok]);
    assert(seq![ok, ok].drop_first() =~= seq![ok]);
    reveal_with_fuel(course, 6);
    let effects = course(before, SpawnStatus::Running { spawn }, all).2;
    let generation = before.superseded().generation;
    let rest = seq![
        SpawnEffect::OpenPty { size: crate::terminal::opening_size() },
        SpawnEffect::Launch { login: spawn.login },
        SpawnEffect::DropSlave,
        SpawnEffect::CloneReader,
        SpawnEffect::TakeWriter,
        SpawnEffect::StoreSession,
        SpawnEffect::StartReader,
        SpawnEffect::StartWaiter { generation },
    ];
    if before.session is Some {
        assert(effects =~= seq![SpawnEffect::<Seq<char>>::KillSession] + rest);
    } else {
        assert(effects =~= rest);
    }
}

/// A start keeps to what it began with: the shell it launches is the one it
/// was begun for, in the directory that was created for it.
pub proof fn law_start_keeps_its_login(
    state: TerminalState,
    spawn: Spawn<Seq<char>>,
    outcome: Result<(), Seq<char>>,
)
    ensures
        spawn.stepped(state, outcome).1 matches SpawnStatus::Running { spawn: next } ==> next.login
            == spawn.login,
        forall|i: int|
            0 <= i < spawn.stepped(state, outcome).2.len() ==> (
            #[trigger] spawn.stepped(state, outcome).2[i] matches SpawnEffect::Launch { login }
                ==> login == spawn.login),
{
}

/// A start that fails says why: in the words of what failed, except that a
/// directory that could not be created is named.
pub proof fn law_start_that_fails(
    state: TerminalState,
    spawn: Spawn<Seq<char>>,
    error: Seq<char>,
)
    ensures
        spawn.stepped(state, Err(error)).0 == state,
        spawn.stepped(state, Err(error)).1 == (SpawnStatus::Finished {
            result: Err(
                if spawn.phase is CreatingDir {
                    crate::workspace::create_failure(spawn.login.cwd, error)
                } else {
                    error
                },
            ),
        }),
{
}

/// Keystrokes are flushed exactly where they could be written, and the command
/// succeeds exactly where both succeed; the first error is what it returns.
pub proof fn law_writing_is_flushed(
    written: Result<(), Seq<char>>,
    flushed: Result<(), Seq<char>>,
)
    ensures
        ({
            let first = crate::terminal::write_stepped(WritePhase::Writing, written);
            let second = crate::terminal::write_stepped(WritePhase::Flushing, flushed);
            &&& first is Flush <==> written is Ok
            &&& written is Err ==> first == (WriteStatus::Finished { result: written })
            &&& second == (WriteStatus::Finished { result: flushed })
        }),
{
}

/// All of `chunks` in a row.
pub open spec fn whole<T>(chunks: Seq<Seq<T>>) -> Seq<T>
    decreases chunks.len(),
{
    if chunks.len() == 0 {
        seq![]
    } else {
        whole(chunks.drop_last()) + chunks.last()
    }
}

/// What the terminal prints arrives unchanged as long as no read ends inside a
/// character: the texts passed on, in a row, are what the bytes encode.
pub proof fn law_output_arrives_unchanged(chunks: Seq<Seq<u8>>, texts: Seq<Seq<char>>)
    requires
        chunks.len() == texts.len(),
        forall|i: int|
            0 <= i < chunks.len() ==> valid_utf8(#[trigger] chunks[i])
                && crate::terminal::reads_as(chunks[i], texts[i]),
    ensures
        valid_utf8(whole(chunks)),
        whole(texts) == decode_utf8(whole(chunks)),
    decreases chunks.len(),
{
    if chunks.len() > 0 {
        let n = chunks.len() - 1;
        assert forall|i: int| 0 <= i < n implies valid_utf8(#[trigger] chunks.drop_last()[i])
            && crate::terminal::reads_as(chunks.drop_last()[i], texts.drop_last()[i]) by {
            assert(valid_utf8(chunks[i]));
        }
        law_output_arrives_unchanged(chunks.drop_last(), texts.drop_last());
        assert(valid_utf8(chunks[n]));
        lemma_decode_concat(whole(chunks.drop_last()), chunks[n]);
    }
}

/// What is typed and comes back in one read is reported as it was typed.
pub proof fn law_echo_reads_as_typed(data: Seq<char>, echoed: Seq<char>)
    requires
        crate::terminal::reads_as(encode_utf8(data), echoed),
    ensures
        echoed == data,
{
    encode_utf8_valid_utf8(data);
    encode_utf8_decode_utf8(data);
}

proof fn lemma_decode_concat(first: Seq<u8>, second: Seq<u8>)
    requires
        valid_utf8(first),
        valid_utf8(second),
    ensures
        valid_utf8(first + second),
        decode_utf8(first + second) == decode_utf8(first) + decode_utf8(second),
    decreases first.len(),
{
    valid_utf8_concat(first, second);
    lemma_end_is_boundary(first, second);
    decode_utf8_split(first + second, first.len() as int);
    assert((first + second).subrange(0, first.len() as int) =~= first);
    assert((first + second).subrange(first.len() as int, (first + second).len() as int) =~= second);
}

proof fn lemma_end_is_boundary(first: Seq<u8>, second: Seq<u8>)
    requires
        valid_utf8(first),
        valid_utf8(second),
        valid_utf8(first + second),
    ensures
        is_char_boundary(first + second, first.len() as int),
    decreases first.len(),
{
    let both = first + second;
    if first.len() > 0 {
        let rest = pop_first_scalar(first);
        assert(both[0] == first[0]);
        assert(pop_first_scalar(both) =~= rest + second);
        assert(length_of_first_scalar(both) == length_of_first_scalar(first));
        lemma_end_is_boundary(rest, second);
    }
}

/// A terminal has the rows and the columns that were asked for, whatever they
/// are, and no size in pixels.
pub proof fn law_size_is_what_was_asked_for(rows: u16, cols: u16)
    ensures
        crate::terminal::cells(rows, cols).rows == rows,
        crate::terminal::cells(rows, cols).cols == cols,
        crate::terminal::cells(rows, cols).pixel_width == 0,
        crate::terminal::cells(rows, cols).pixel_height == 0,
{
}

/// Claiming a generation takes the next one, round the circle, and leaves no
/// session live.
pub proof fn law_claim_takes_the_next_generation(state: TerminalState)
    ensures
        state.superseded().generation as int == (state.generation + 1) % 0x1_0000_0000_0000_0000,
        state.superseded().generation != state.generation,
        state.superseded().session is None,
{
}

/// An exit is reported exactly where its generation is the current one, with the
/// code that the shell returned, and with 0 where there is none to be had.
pub proof fn law_exit_report(state: TerminalState, generation: u64, code: Option<u32>)
    ensures
        state.exit_of(generation, code) is Some <==> state.generation == generation,
        state.exit_of(generation, code) matches Some(report) ==> {
            &&& code matches Some(c) ==> report.code == c
            &&& code is None ==> report.code == 0
        },
{
}

/// A dock begins without a session.
pub proof fn law_first_session_has_nothing_to_end(spawn: Spawn<Seq<char>>)
    requires
        spawn.phase is CreatingDir,
    ensures
        TerminalState::initial().session is None,
        !spawn.stepped(TerminalState::initial(), Ok(())).2.contains(SpawnEffect::KillSession),
{
    let list = spawn.stepped(TerminalState::initial(), Ok(())).2;
    assert forall|i: int| 0 <= i < list.len() implies #[trigger] list[i]
        != SpawnEffect::<Seq<char>>::KillSession by {}
}

/// A start is begun for the user's shell in the directory given, and creates
/// that directory first.
pub proof fn law_start_begins_with_its_directory(
    cwd: Seq<char>,
    shell: Option<Seq<char>>,
    has_term: bool,
)
    ensures
        ({
            let spawn = Spawn::begun(cwd, shell, has_term);
            &&& spawn.phase is CreatingDir
            &&& spawn.login.cwd == cwd
            &&& spawn.login.has_term == has_term
            &&& shell matches Some(own) ==> spawn.login.shell == own
            &&& shell is None ==> spawn.login.shell == "/bin/zsh"@
        }),
{
}

/// What each success leads to. The directory made, a generation is claimed, the
/// old session ended if there is one, and a terminal of 24 by 80 cells opened;
/// then the shell is launched, its end let go, the ends of the terminal taken
/// one by one, and at last they are kept as the live session, which is the only
/// step that makes one live.
pub proof fn law_each_success_leads_on(state: TerminalState, spawn: Spawn<Seq<char>>)
    ensures
        ({
            let (next, status, effects) = spawn.stepped(state, Ok(()));
            let login = spawn.login;
            match spawn.phase {
                SpawnPhase::CreatingDir => {
                    let open = SpawnEffect::<Seq<char>>::OpenPty {
                        size: TerminalSize { rows: 24, cols: 80, pixel_width: 0, pixel_height: 0 },
                    };
                    let generation = next.generation;
                    &&& generation as int == (state.generation + 1) % 0x1_0000_0000_0000_0000
                    &&& next.session is None
                    &&& status == (SpawnStatus::Running {
                        spawn: Spawn { login, phase: SpawnPhase::OpeningPty { generation } },
                    })
                    &&& state.session is None ==> effects == seq![open]
                    &&& state.session is Some ==> effects == seq![SpawnEffect::KillSession, open]
                },
                SpawnPhase::OpeningPty { generation } => {
                    &&& next == state
                    &&& status == (SpawnStatus::Running {
                        spawn: Spawn { login, phase: SpawnPhase::Launching { generation } },
                    })
                    &&& effects == seq![SpawnEffect::Launch { login }]
                },
                SpawnPhase::Launching { generation } => {
                    &&& next == state
                    &&& status == (SpawnStatus::Running {
                        spawn: Spawn { login, phase: SpawnPhase::CloningReader { generation } },
                    })
                    &&& effects == seq![
                        SpawnEffect::<Seq<char>>::DropSlave,
                        SpawnEffect::CloneReader,
                    ]
                },
                SpawnPhase::CloningReader { generation } => {
                    &&& next == state
                    &&& status == (SpawnStatus::Running {
                        spawn: Spawn { login, phase: SpawnPhase::TakingWriter { generation } },
                    })
                    &&& effects == seq![SpawnEffect::<Seq<char>>::TakeWriter]
                },
                SpawnPhase::TakingWriter { generation } => {
                    &&& next.generation == state.generation
                    &&& next.session == Some(generation)
                    &&& status == (SpawnStatus::<Seq<char>>::Finished { result: Ok(()) })
                    &&& effects == seq![
                        SpawnEffect::<Seq<char>>::StoreSession,
                        SpawnEffect::StartReader,
                        SpawnEffect::StartWaiter { generation },
                    ]
                },
            }
        }),
{
}

/// A failure ends a start at once: nothing more is done, the dock stays as it
/// is, and the error is handed on, behind the name of the directory where that
/// could not be created.
pub proof fn law_each_failure_ends_the_start(
    state: TerminalState,
    spawn: Spawn<Seq<char>>,
    error: Seq<char>,
)
    ensures
        ({
            let (next, status, effects) = spawn.stepped(state, Err(error));
            &&& next == state
            &&& effects.len() == 0
            &&& spawn.phase is CreatingDir ==> status == (SpawnStatus::Finished {
                result: Err(
                    "cannot create workspace dir "@ + spawn.login.cwd + ": "@ + error,
                ),
            })
            &&& !(spawn.phase is CreatingDir) ==> status == (SpawnStatus::Finished {
                result: Err(error),
            })
        }),
{
}

/// What a read stands for depends on its bytes alone, and is what they encode
/// where they are UTF-8.
pub proof fn law_reads_stand_for_their_bytes(bytes: Seq<u8>, a: Seq<char>, b: Seq<char>)
    requires
        crate::terminal::reads_as(bytes, a),
        crate::terminal::reads_as(bytes, b),
    ensures
        a == b,
        a == crate::terminal::lossy_text(bytes),
        valid_utf8(bytes) ==> a == decode_utf8(bytes),
{
}

/// An outcome keeps its error, character by character.
pub proof fn law_outcomes_are_shown(outcome: Result<(), String>)
    ensures
        outcome is Ok <==> crate::terminal::outcome_of(outcome) is Ok,
        outcome matches Err(error) ==> crate::terminal::outcome_of(outcome) == Err::<
            (),
            Seq<char>,
        >(error@),
{
}

/// A start, its effects and its status are read as they are, each part for
/// itself, and effects in their order.
pub proof fn law_starts_are_shown(
    effect: SpawnEffect<String>,
    effects: Seq<SpawnEffect<String>>,
    spawn: Spawn<String>,
    status: SpawnStatus<String>,
    writing: WriteStatus<String>,
)
    ensures
        match effect {
            SpawnEffect::CreateDir { path } => effect@ == (SpawnEffect::CreateDir { path: path@ }),
            SpawnEffect::KillSession => effect@ is KillSession,
            SpawnEffect::OpenPty { size } => effect@ == (SpawnEffect::<Seq<char>>::OpenPty {
                size,
            }),
            SpawnEffect::Launch { login } => effect@ == (SpawnEffect::Launch { login: login@ }),
            SpawnEffect::DropSlave => effect@ is DropSlave,
            SpawnEffect::CloneReader => effect@ is CloneReader,
            SpawnEffect::TakeWriter => effect@ is TakeWriter,
            SpawnEffect::StoreSession => effect@ is StoreSession,
            SpawnEffect::StartReader => effect@ is StartReader,
            SpawnEffect::StartWaiter { generation } => effect@ == (SpawnEffect::<
                Seq<char>,
            >::StartWaiter { generation }),
        },
        crate::terminal::spawn_effects_of(effects).len() == effects.len(),
        forall|i: int|
            0 <= i < effects.len() ==> #[trigger] crate::terminal::spawn_effects_of(effects)[i]
                == effects[i]@,
        spawn@.login.shell == spawn.login.shell@,
        spawn@.login.cwd == spawn.login.cwd@,
        spawn@.login.has_term == spawn.login.has_term,
        spawn@.phase == spawn.phase,
        match status {
            SpawnStatus::Running { spawn: going_on } => status@ == (SpawnStatus::Running {
                spawn: going_on@,
            }),
            SpawnStatus::Finished { result: Ok(()) } => status@ == (SpawnStatus::<
                Seq<char>,
            >::Finished { result: Ok(()) }),
            SpawnStatus::Finished { result: Err(error) } => status@ == (SpawnStatus::Finished {
                result: Err(error@),
            }),
        },
        match writing {
            WriteStatus::Flush => writing@ is Flush,
            WriteStatus::Finished { result: Ok(()) } => writing@ == (WriteStatus::<
                Seq<char>,
            >::Finished { result: Ok(()) }),
            WriteStatus::Finished { result: Err(error) } => writing@ == (WriteStatus::Finished {
                result: Err(error@),
            }),
        },
{
}

/// A live session gets exactly the rows and columns that were asked for, and no
/// size in pixels; without one there is nothing to set.
pub proof fn law_resize_sets_what_was_asked_for(
    state: &TerminalState,
    rows: u16,
    cols: u16,
    r: Option<TerminalSize>,
)
    requires
        call_ensures(crate::terminal::terminal_resize, (state, rows, cols), r),
    ensures
        r is Some <==> state.session is Some,
        r matches Some(size) ==> {
            &&& size.rows == rows
            &&& size.cols == cols
            &&& size.pixel_width == 0
            &&& size.pixel_height == 0
        },
{
}

/// A live session is written exactly what was typed, in UTF-8; without one there
/// is nothing to write.
pub proof fn law_write_passes_on_what_was_typed(
    state: &TerminalState,
    data: &str,
    r: Option<Vec<u8>>,
)
    requires
        call_ensures(crate::terminal::terminal_write, (state, data), r),
    ensures
        r is Some <==> state.session is Some,
        r matches Some(bytes) ==> valid_utf8(bytes@) && decode_utf8(bytes@) == data@,
{
    encode_utf8_valid_utf8(data@);
    encode_utf8_decode_utf8(data@);
}

/// A read with bytes is passed on, whole; a read without any, or a failed one,
/// ends the reading.
pub proof fn law_read_passes_on_what_was_printed(read: Option<&[u8]>, r: Option<String>)
    requires
        call_ensures(crate::terminal::read_step, (read,), r),
    ensures
        r is Some <==> (read matches Some(bytes) && bytes@.len() > 0),
        r matches Some(text) ==> text@ == crate::terminal::lossy_text(read->0@),
        (r matches Some(text) && valid_utf8(read->0@)) ==> encode_utf8(r->0@) == read->0@,
{
    if r is Some && valid_utf8(read->0@) {
        decode_utf8_encode_utf8(read->0@);
    }
}

/// A command that had nothing to do succeeds; any other returns what came of it,
/// with the error in its own words.
pub proof fn law_commands_return_what_came_of_them(
    done: Option<Result<(), String>>,
    r: Result<(), String>,
)
    requires
        call_ensures(crate::terminal::terminal_result, (done,), r),
    ensures
        done is None ==> r is Ok,
        done matches Some(outcome) ==> (r is Ok <==> outcome is Ok),
        done matches Some(Err(error)) ==> (r matches Err(told) && told@ == error@),
{
}

/// What was written is flushed; a flush or an error ends the writing, with the
/// error in its own words.
pub proof fn law_write_step_leads_to_the_flush(
    phase: WritePhase,
    outcome: Result<(), String>,
    r: WriteStatus<String>,
)
    requires
        call_ensures(crate::terminal::write_step, (phase, outcome), r),
    ensures
        r is Flush <==> phase is Writing && outcome is Ok,
        r matches WriteStatus::Finished { result } ==> (result is Ok <==> outcome is Ok),
        (r matches WriteStatus::Finished { result: Err(told) } && outcome is Err) ==> r->result->Err_0@
            == outcome->Err_0@,
{
}

/// An exit is reported exactly where its generation is the current one.
pub proof fn law_exit_report_follows_the_generation(
    state: &TerminalState,
    generation: u64,
    code: Option<u32>,
    r: Option<ExitPayload>,
)
    requires
        call_ensures(TerminalState::exit_report, (state, generation, code), r),
    ensures
        r is Some <==> state.generation == generation,
        r matches Some(report) ==> {
            &&& code matches Some(c) ==> report.code == c
            &&& code is None ==> report.code == 0
        },
{
}

/// Output and exits go by events of their own.
pub proof fn law_notices_go_by_their_events(notice: &Notice, r: &'static str)
    requires
        call_ensures(Notice::event, (notice,), r),
    ensures
        *notice is Data ==> r@ == "terminal://data"@,
        *notice is Exit ==> r@ == "terminal://exit"@,
{
}

/// Closing the dock leaves no session, claims the next generation, and says
/// whether there was a session to end.
pub proof fn law_closing_ends_the_session()
    ensures
        forall|dock: &mut TerminalState, r: bool| #[trigger]
            call_ensures(crate::terminal::terminal_kill, (dock,), r) ==> {
                &&& final(dock).session is None
                &&& final(dock).generation as int == (dock.generation + 1)
                    % 0x1_0000_0000_0000_0000
                &&& r == (dock.session is Some)
            },
{
    assert forall|dock: &mut TerminalState, r: bool| #[trigger]
        call_ensures(crate::terminal::terminal_kill, (dock,), r) implies final(dock).session is None
        && final(dock).generation as int == (dock.generation + 1) % 0x1_0000_0000_0000_0000 && r
        == (dock.session is Some) by {
        law_claim_takes_the_next_generation(*dock);
    }
}

/// The outcome of an effect is taken as the laws on successes and failures have
/// it.
pub proof fn law_outcomes_are_taken()
    ensures
        forall|
            spawn: Spawn<String>,
            dock: &mut TerminalState,
            outcome: Result<(), String>,
            r: (SpawnStatus<String>, Vec<SpawnEffect<String>>),
        | #[trigger]
            call_ensures(Spawn::<String>::step, (spawn, dock, outcome), r) ==> {
                let (next, status, effects) = spawn@.stepped(
                    *dock,
                    crate::terminal::outcome_of(outcome),
                );
                &&& *final(dock) == next
                &&& r.0@ == status
                &&& crate::terminal::spawn_effects_of(r.1@) == effects
            },
{
}

/// A start is refused exactly where a `~` meets no home, and otherwise begins by
/// creating the directory that the shell is to run in: on Unix, a path without
/// `~` as it is, and `~` as the home directory.
pub proof fn law_starts_begin_in_the_workspace(
    cwd: &str,
    environment: &Environment,
    r: Result<(Spawn<String>, Vec<SpawnEffect<String>>), String>,
)
    requires
        call_ensures(crate::terminal::terminal_spawn, (cwd, environment), r),
    ensures
        ({
            let whole = cwd@ == seq!['~'];
            let below = cwd@.len() >= 2 && cwd@[0] == '~' && cwd@[1] == '/';
            &&& r is Err <==> environment.home is None && (whole || below)
            &&& r matches Err(message) ==> message@ == "cannot expand ~: HOME is not set"@
            &&& r matches Ok((spawn, effects)) ==> {
                &&& effects@.len() == 1
                &&& effects@[0] matches SpawnEffect::CreateDir { path } && path@ == spawn.login.cwd@
                &&& spawn.phase is CreatingDir
                &&& spawn.login.has_term == environment.has_term
                &&& environment.shell matches Some(own) ==> spawn.login.shell@ == own@
                &&& environment.shell is None ==> spawn.login.shell@ == "/bin/zsh"@
                &&& !whole && !below ==> spawn.login.cwd@ == cwd@
                &&& whole ==> spawn.login.cwd@ == environment.home->0@
                &&& below && environment.unix ==> spawn.login.cwd@.len()
                    >= environment.home->0@.len() && spawn.login.cwd@.take(
                    environment.home->0@.len() as int,
                ) == environment.home->0@
            }
        }),
{
    let home = crate::text::text_of(environment.home);
    crate::workspace::law_what_is_expanded(cwd@, home, environment.unix);
    if r is Ok {
        let effects = r->Ok_0.1;
        let list = crate::terminal::spawn_effects_of(effects@);
        assert(list.len() == effects@.len());
        assert(list[0] == effects@[0]@);
        if crate::workspace::below_home(cwd@) && environment.unix {
            crate::workspace::law_tilde_leads_below_home(cwd@, home->0, true);
        }
    }
}

} // verus!
