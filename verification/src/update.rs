//! The self-update flow: what one update check does, step by step.
//!
//! Background checks download quietly and wait for a restart; checks that the
//! user asked for say what happens. A check is a conversation: each step hands
//! out effects to perform, in order, and waits for the reply to the last one.
use vstd::prelude::*;
use vstd::string::*;
use crate::text::{around, same_text};

verus! {

/// The event that tells the page which version waits for a restart.
pub const READY_EVENT: &'static str = "update://ready";

/// Something the shell does on behalf of an update check.
#[derive(Debug, PartialEq, Eq)]
pub enum Effect<T> {
    /// Shows a message and goes on at once.
    Show { title: T, message: T },
    /// Shows a message; answered by `Dismissed`.
    Tell { title: T, message: T },
    /// Asks a question with two buttons; answered by `Answered`.
    Ask { title: T, message: T, accept: T, decline: T },
    /// Writes a diagnostic line.
    Log { line: T },
    /// Opens the updater; answered by `UpdaterReady` or `UpdaterFailed`.
    OpenUpdater,
    /// Asks the release server; answered by `Available`, `UpToDate` or `CheckFailed`.
    AskServer,
    /// Downloads and installs the update found; answered by `Installed` or `InstallFailed`.
    DownloadAndInstall,
    /// Changes the text of the update menu item.
    SetMenuText { text: T },
    /// Tells the page that `version` waits for a restart.
    EmitReady { version: T },
    /// Restarts the application; never answered.
    Restart,
}

/// The reply to an effect.
#[derive(Debug, PartialEq, Eq)]
pub enum Event<T> {
    UpdaterReady,
    UpdaterFailed { error: T },
    /// A newer release: `version`, while `current` is running.
    Available { version: T, current: T },
    /// No newer release than the one that is `running`.
    UpToDate { running: T },
    CheckFailed { error: T },
    Dismissed,
    Answered { accepted: bool },
    Installed,
    InstallFailed { error: T },
}

/// What a running check waits for.
#[derive(Debug, PartialEq, Eq)]
pub enum Phase<T> {
    /// The updater is being opened.
    Opening,
    /// The release server has been asked.
    Checking,
    /// A closing message is on screen.
    Telling,
    /// The user is asked whether to restart into the downloaded update.
    OfferingRestart,
    /// The user is asked whether to install `version`.
    OfferingInstall { version: T },
    /// `version` is being installed with the user's consent.
    InstallingNow { version: T },
    /// `version` is being installed in the background.
    InstallingQuietly { version: T },
    /// The application is going down to come up again.
    Restarting,
}

/// One update check under way.
#[derive(Debug, PartialEq, Eq)]
pub struct Check<T> {
    /// Whether the user asked for it.
    pub interactive: bool,
    pub phase: Phase<T>,
}

/// The update flow as a whole.
#[derive(Debug, PartialEq, Eq)]
pub struct UpdateState<T> {
    /// The check in flight, if any.
    pub check: Option<Check<T>>,
    /// The version that is downloaded and waits for a restart, if any.
    pub pending: Option<T>,
}

impl View for Effect<String> {
    type V = Effect<Seq<char>>;

    open spec fn view(&self) -> Effect<Seq<char>> {
        match *self {
            Effect::Show { title, message } => Effect::Show { title: title@, message: message@ },
            Effect::Tell { title, message } => Effect::Tell { title: title@, message: message@ },
            Effect::Ask { title, message, accept, decline } => Effect::Ask {
                title: title@,
                message: message@,
                accept: accept@,
                decline: decline@,
            },
            Effect::Log { line } => Effect::Log { line: line@ },
            Effect::OpenUpdater => Effect::OpenUpdater,
            Effect::AskServer => Effect::AskServer,
            Effect::DownloadAndInstall => Effect::DownloadAndInstall,
            Effect::SetMenuText { text } => Effect::SetMenuText { text: text@ },
            Effect::EmitReady { version } => Effect::EmitReady { version: version@ },
            Effect::Restart => Effect::Restart,
        }
    }
}

impl View for Event<String> {
    type V = Event<Seq<char>>;

    open spec fn view(&self) -> Event<Seq<char>> {
        match *self {
            Event::UpdaterReady => Event::UpdaterReady,
            Event::UpdaterFailed { error } => Event::UpdaterFailed { error: error@ },
            Event::Available { version, current } => Event::Available {
                version: version@,
                current: current@,
            },
            Event::UpToDate { running } => Event::UpToDate { running: running@ },
            Event::CheckFailed { error } => Event::CheckFailed { error: error@ },
            Event::Dismissed => Event::Dismissed,
            Event::Answered { accepted } => Event::Answered { accepted },
            Event::Installed => Event::Installed,
            Event::InstallFailed { error } => Event::InstallFailed { error: error@ },
        }
    }
}

impl View for Phase<String> {
    type V = Phase<Seq<char>>;

    open spec fn view(&self) -> Phase<Seq<char>> {
        match *self {
            Phase::Opening => Phase::Opening,
            Phase::Checking => Phase::Checking,
            Phase::Telling => Phase::Telling,
            Phase::OfferingRestart => Phase::OfferingRestart,
            Phase::OfferingInstall { version } => Phase::OfferingInstall { version: version@ },
            Phase::InstallingNow { version } => Phase::InstallingNow { version: version@ },
            Phase::InstallingQuietly { version } => Phase::InstallingQuietly { version: version@ },
            Phase::Restarting => Phase::Restarting,
        }
    }
}

impl View for UpdateState<String> {
    type V = UpdateState<Seq<char>>;

    open spec fn view(&self) -> UpdateState<Seq<char>> {
        UpdateState {
            check: match self.check {
                Some(c) => Some(Check { interactive: c.interactive, phase: c.phase@ }),
                None => None,
            },
            pending: crate::text::text_of(self.pending),
        }
    }
}

/// The effects in `effects`, in order.
pub open spec fn effects_of(effects: Seq<Effect<String>>) -> Seq<Effect<Seq<char>>> {
    effects.map_values(|e: Effect<String>| e@)
}

impl Effect<String> {
    /// The event that brings this effect to the page, and the version that goes
    /// with it; none for an effect that the page is not told of.
    pub fn announcement(&self) -> (r: Option<(&'static str, &String)>)
        ensures
            match (r, *self) {
                (Some((event, told)), Effect::EmitReady { version }) => event@ == READY_EVENT@
                    && told@ == version@,
                (None, effect) => !(effect is EmitReady),
                _ => false,
            },
    {
        match self {
            Effect::EmitReady { version } => Some((READY_EVENT, version)),
            _ => None,
        }
    }
}

/// The title of the messages about a check itself.
pub const CHECK_TITLE: &'static str = "Check for Updates";

/// A message under the title of the check.
pub open spec fn check_message(message: Seq<char>) -> Effect<Seq<char>> {
    Effect::Tell { title: CHECK_TITLE@, message }
}

pub open spec fn check_failure(error: Seq<char>) -> Seq<char> {
    "Update check failed: "@ + error
}

/// The offer to restart into a downloaded `version`.
pub open spec fn restart_question(version: Seq<char>) -> Effect<Seq<char>> {
    Effect::Ask {
        title: "Update ready"@,
        message: "WordPuppi "@ + version + " is downloaded and ready. Restart now?"@,
        accept: "Restart"@,
        decline: "Later"@,
    }
}

/// The offer to install `version` over the running `current`.
pub open spec fn install_question(
    version: Seq<char>,
    current: Seq<char>,
) -> Effect<Seq<char>> {
    Effect::Ask {
        title: "Update available"@,
        message: "WordPuppi "@ + version + " is available (you have "@ + current
            + "). Install and restart?"@,
        accept: "Install"@,
        decline: "Later"@,
    }
}

/// What the update menu item reads once `version` waits for a restart.
pub open spec fn restart_menu_text(version: Seq<char>) -> Seq<char> {
    "Restart to Update WordPuppi to "@ + version
}

impl UpdateState<Seq<char>> {
    /// Nothing in flight, nothing downloaded.
    pub open spec fn initial() -> Self {
        UpdateState { check: None, pending: None }
    }

    /// The same pending update, with the check of kind `interactive` in `phase`.
    pub open spec fn in_phase(self, interactive: bool, phase: Phase<Seq<char>>) -> Self {
        UpdateState { check: Some(Check { interactive, phase }), pending: self.pending }
    }

    /// The same pending update, with no check in flight.
    pub open spec fn idle(self) -> Self {
        UpdateState { check: None, pending: self.pending }
    }

    /// What a request for a check does: the next state and the effects.
    pub open spec fn started(self, interactive: bool) -> (Self, Seq<Effect<Seq<char>>>) {
        if self.check is None {
            (self.in_phase(interactive, Phase::Opening), seq![Effect::OpenUpdater])
        } else if interactive {
            (
                self,
                seq![
                    Effect::Show {
                        title: CHECK_TITLE@,
                        message: "An update check is already in progress."@,
                    },
                ],
            )
        } else {
            (self, seq![])
        }
    }

    /// How a check ends that has only a message left: a user who asked is
    /// told, and a background check leaves `log` behind.
    pub open spec fn closed(
        self,
        interactive: bool,
        message: Effect<Seq<char>>,
        log: Seq<Effect<Seq<char>>>,
    ) -> (Self, Seq<Effect<Seq<char>>>) {
        if interactive {
            (self.in_phase(true, Phase::Telling), seq![message])
        } else {
            (self.idle(), log)
        }
    }

    /// What the release `version` does to a check, where `current` is running.
    pub open spec fn found(
        self,
        interactive: bool,
        version: Seq<char>,
        current: Seq<char>,
    ) -> (Self, Seq<Effect<Seq<char>>>) {
        if self.pending == Some(version) {
            if interactive {
                (
                    self.in_phase(true, Phase::OfferingRestart),
                    seq![Effect::EmitReady { version }, restart_question(version)],
                )
            } else {
                (self.idle(), seq![Effect::EmitReady { version }])
            }
        } else if interactive {
            (
                self.in_phase(true, Phase::OfferingInstall { version }),
                seq![install_question(version, current)],
            )
        } else {
            (
                self.in_phase(false, Phase::InstallingQuietly { version }),
                seq![Effect::DownloadAndInstall],
            )
        }
    }

    /// What `event` does: the next state and the effects. An event that the
    /// check does not wait for does nothing.
    pub open spec fn stepped(self, event: Event<Seq<char>>) -> (Self, Seq<Effect<Seq<char>>>) {
        match self.check {
            None => (self, seq![]),
            Some(check) => {
                let asked = check.interactive;
                match (check.phase, event) {
                    (Phase::Opening, Event::UpdaterReady) => (
                        self.in_phase(asked, Phase::Checking),
                        seq![Effect::AskServer],
                    ),
                    (Phase::Opening, Event::UpdaterFailed { error }) => self.closed(
                        asked,
                        check_message(check_failure(error)),
                        seq![Effect::Log { line: "[wpp-desktop] updater init failed: "@ + error }],
                    ),
                    (Phase::Checking, Event::Available { version, current }) => self.found(
                        asked,
                        version,
                        current,
                    ),
                    (Phase::Checking, Event::UpToDate { running }) => self.closed(
                        asked,
                        check_message("WordPuppi "@ + running + " is up to date."@),
                        seq![],
                    ),
                    (Phase::Checking, Event::CheckFailed { error }) => self.closed(
                        asked,
                        check_message(check_failure(error)),
                        seq![Effect::Log { line: "[wpp-desktop] update check failed: "@ + error }],
                    ),
                    (Phase::Telling, Event::Dismissed) => (self.idle(), seq![]),
                    (Phase::OfferingRestart, Event::Answered { accepted }) => if accepted {
                        (self.in_phase(asked, Phase::Restarting), seq![Effect::Restart])
                    } else {
                        (self.idle(), seq![])
                    },
                    (Phase::OfferingInstall { version }, Event::Answered { accepted }) => (
                        self.in_phase(
                            asked,
                            if accepted {
                                Phase::InstallingNow { version }
                            } else {
                                Phase::InstallingQuietly { version }
                            },
                        ),
                        seq![Effect::DownloadAndInstall],
                    ),
                    (Phase::InstallingNow { .. }, Event::Installed) => (
                        self.in_phase(asked, Phase::Restarting),
                        seq![Effect::Restart],
                    ),
                    (Phase::InstallingNow { .. }, Event::InstallFailed { error }) => (
                        self.in_phase(asked, Phase::Telling),
                        seq![
                            Effect::Tell {
                                title: "Update"@,
                                message: "Update install failed: "@ + error,
                            },
                        ],
                    ),
                    (Phase::InstallingQuietly { version }, Event::Installed) => (
                        UpdateState { check: None, pending: Some(version) },
                        seq![
                            Effect::SetMenuText { text: restart_menu_text(version) },
                            Effect::EmitReady { version },
                        ],
                    ),
                    (Phase::InstallingQuietly { .. }, Event::InstallFailed { error }) => (
                        self.idle(),
                        seq![Effect::Log { line: "[wpp-desktop] update install failed: "@ + error }],
                    ),
                    _ => (self, seq![]),
                }
            },
        }
    }

    /// What a request to restart into the update does.
    pub open spec fn restarted(self) -> Seq<Effect<Seq<char>>> {
        if self.pending is Some {
            seq![Effect::Restart]
        } else {
            seq![]
        }
    }

    /// What choosing the update menu item does: the next state and the effects.
    pub open spec fn item_chosen(self) -> (Self, Seq<Effect<Seq<char>>>) {
        if self.pending is Some {
            (self, seq![Effect::Restart])
        } else {
            self.started(true)
        }
    }

    /// What every reachable state keeps: questions, closing messages and
    /// restarts belong to checks that the user asked for, a restart is offered
    /// only for a downloaded update, and what is being installed is never the
    /// version that already waits.
    pub open spec fn well_formed(self) -> bool {
        match self.check {
            None => true,
            Some(check) => match check.phase {
                Phase::Opening | Phase::Checking => true,
                Phase::Telling | Phase::Restarting => check.interactive,
                Phase::OfferingRestart => check.interactive && self.pending is Some,
                Phase::OfferingInstall { version } | Phase::InstallingNow { version } => {
                    check.interactive && self.pending != Some(version)
                },
                Phase::InstallingQuietly { version } => self.pending != Some(version),
            },
        }
    }
}

fn no_effects() -> (r: Vec<Effect<String>>)
    ensures
        effects_of(r@) == Seq::<Effect<Seq<char>>>::empty(),
{
    let r: Vec<Effect<String>> = Vec::new();
    assert(effects_of(r@) =~= Seq::<Effect<Seq<char>>>::empty());
    r
}

fn one_effect(effect: Effect<String>) -> (r: Vec<Effect<String>>)
    ensures
        effects_of(r@) == seq![effect@],
{
    let mut r: Vec<Effect<String>> = Vec::new();
    r.push(effect);
    assert(effects_of(r@) =~= seq![effect@]);
    r
}

fn two_effects(first: Effect<String>, second: Effect<String>) -> (r: Vec<Effect<String>>)
    ensures
        effects_of(r@) == seq![first@, second@],
{
    let mut r: Vec<Effect<String>> = Vec::new();
    r.push(first);
    r.push(second);
    assert(effects_of(r@) =~= seq![first@, second@]);
    r
}

fn log_line(what: &str, error: String) -> (r: Vec<Effect<String>>)
    ensures
        effects_of(r@) == seq![Effect::Log { line: what@ + error@ }],
{
    one_effect(Effect::Log { line: String::from_str(what).concat(error.as_str()) })
}

fn check_failure_message(error: &String) -> (r: Effect<String>)
    ensures
        r@ == check_message(check_failure(error@)),
{
    Effect::Tell {
        title: String::from_str(CHECK_TITLE),
        message: String::from_str("Update check failed: ").concat(error.as_str()),
    }
}

impl UpdateState<String> {
    /// Nothing in flight, nothing downloaded.
    pub fn new() -> (r: Self)
        ensures
            r@ == UpdateState::initial(),
            r@.well_formed(),
    {
        UpdateState { check: None, pending: None }
    }

    /// Requests an update check; `interactive` when the user asked for it. At
    /// most one check runs at a time: while one is in flight, a request does
    /// nothing beyond telling the user who made it.
    pub fn spawn_update_check(&mut self, interactive: bool) -> (r: Vec<Effect<String>>)
        ensures
            (final(self)@, effects_of(r@)) == old(self)@.started(interactive),
            old(self)@.well_formed() ==> final(self)@.well_formed(),
    {
        if self.check.is_none() {
            self.check = Some(Check { interactive, phase: Phase::Opening });
            one_effect(Effect::OpenUpdater)
        } else if interactive {
            one_effect(
                Effect::Show {
                    title: String::from_str(CHECK_TITLE),
                    message: String::from_str("An update check is already in progress."),
                },
            )
        } else {
            no_effects()
        }
    }

    fn close(
        &mut self,
        interactive: bool,
        message: Effect<String>,
        log: Vec<Effect<String>>,
    ) -> (r: Vec<Effect<String>>)
        requires
            old(self).check is None,
        ensures
            (final(self)@, effects_of(r@)) == old(self)@.closed(
                interactive,
                message@,
                effects_of(log@),
            ),
    {
        if interactive {
            self.check = Some(Check { interactive: true, phase: Phase::Telling });
            one_effect(message)
        } else {
            log
        }
    }

    fn find(&mut self, interactive: bool, version: String, current: String) -> (r: Vec<
        Effect<String>,
    >)
        requires
            old(self).check is None,
        ensures
            (final(self)@, effects_of(r@)) == old(self)@.found(interactive, version@, current@),
    {
        let known: bool = match &self.pending {
            Some(pending) => same_text(pending.as_str(), version.as_str()),
            None => false,
        };
        if known {
            let ready: Effect<String> = Effect::EmitReady { version: version.clone() };
            if interactive {
                self.check = Some(Check { interactive: true, phase: Phase::OfferingRestart });
                two_effects(
                    ready,
                    Effect::Ask {
                        title: String::from_str("Update ready"),
                        message: around(
                            "WordPuppi ",
                            version.as_str(),
                            " is downloaded and ready. Restart now?",
                        ),
                        accept: String::from_str("Restart"),
                        decline: String::from_str("Later"),
                    },
                )
            } else {
                one_effect(ready)
            }
        } else if interactive {
            let question: Effect<String> = Effect::Ask {
                title: String::from_str("Update available"),
                message: around("WordPuppi ", version.as_str(), " is available (you have ").concat(
                    current.as_str(),
                ).concat("). Install and restart?"),
                accept: String::from_str("Install"),
                decline: String::from_str("Later"),
            };
            self.check = Some(
                Check { interactive: true, phase: Phase::OfferingInstall { version } },
            );
            one_effect(question)
        } else {
            self.check = Some(
                Check { interactive: false, phase: Phase::InstallingQuietly { version } },
            );
            one_effect(Effect::DownloadAndInstall)
        }
    }

    /// Takes the reply to the last effect of the check in flight and hands out
    /// what to do next.
    pub fn step(&mut self, event: Event<String>) -> (r: Vec<Effect<String>>)
        ensures
            (final(self)@, effects_of(r@)) == old(self)@.stepped(event@),
            old(self)@.well_formed() ==> final(self)@.well_formed(),
    {
        match self.check.take() {
            None => no_effects(),
            Some(check) => {
                let asked: bool = check.interactive;
                match (check.phase, event) {
                    (Phase::Opening, Event::UpdaterReady) => {
                        self.check = Some(Check { interactive: asked, phase: Phase::Checking });
                        one_effect(Effect::AskServer)
                    },
                    (Phase::Opening, Event::UpdaterFailed { error }) => {
                        let message: Effect<String> = check_failure_message(&error);
                        let log: Vec<Effect<String>> = log_line(
                            "[wpp-desktop] updater init failed: ",
                            error,
                        );
                        self.close(asked, message, log)
                    },
                    (Phase::Checking, Event::Available { version, current }) => {
                        self.find(asked, version, current)
                    },
                    (Phase::Checking, Event::UpToDate { running }) => {
                        let message: Effect<String> = Effect::Tell {
                            title: String::from_str(CHECK_TITLE),
                            message: around("WordPuppi ", running.as_str(), " is up to date."),
                        };
                        self.close(asked, message, no_effects())
                    },
                    (Phase::Checking, Event::CheckFailed { error }) => {
                        let message: Effect<String> = check_failure_message(&error);
                        let log: Vec<Effect<String>> = log_line(
                            "[wpp-desktop] update check failed: ",
                            error,
                        );
                        self.close(asked, message, log)
                    },
                    (Phase::Telling, Event::Dismissed) => no_effects(),
                    (Phase::OfferingRestart, Event::Answered { accepted }) => {
                        if accepted {
                            self.check = Some(
                                Check { interactive: asked, phase: Phase::Restarting },
                            );
                            one_effect(Effect::Restart)
                        } else {
                            no_effects()
                        }
                    },
                    (Phase::OfferingInstall { version }, Event::Answered { accepted }) => {
                        let phase: Phase<String> = if accepted {
                            Phase::InstallingNow { version }
                        } else {
                            Phase::InstallingQuietly { version }
                        };
                        self.check = Some(Check { interactive: asked, phase });
                        one_effect(Effect::DownloadAndInstall)
                    },
                    (Phase::InstallingNow { version: _ }, Event::Installed) => {
                        self.check = Some(Check { interactive: asked, phase: Phase::Restarting });
                        one_effect(Effect::Restart)
                    },
                    (Phase::InstallingNow { version: _ }, Event::InstallFailed { error }) => {
                        self.check = Some(Check { interactive: asked, phase: Phase::Telling });
                        one_effect(
                            Effect::Tell {
                                title: String::from_str("Update"),
                                message: String::from_str("Update install failed: ").concat(
                                    error.as_str(),
                                ),
                            },
                        )
                    },
                    (Phase::InstallingQuietly { version }, Event::Installed) => {
                        self.pending = Some(version.clone());
                        two_effects(
                            Effect::SetMenuText {
                                text: String::from_str("Restart to Update WordPuppi to ").concat(
                                    version.as_str(),
                                ),
                            },
                            Effect::EmitReady { version },
                        )
                    },
                    (Phase::InstallingQuietly { version: _ }, Event::InstallFailed { error }) => {
                        log_line("[wpp-desktop] update install failed: ", error)
                    },
                    (phase, _) => {
                        self.check = Some(Check { interactive: asked, phase });
                        no_effects()
                    },
                }
            },
        }
    }

    /// Forgets the check in flight, whatever it waits for. This is for a check
    /// whose task went away without a reply.
    pub fn clear_in_flight(&mut self)
        ensures
            final(self)@ == old(self)@.idle(),
            final(self)@.well_formed(),
    {
        self.check = None;
    }

    /// The version that waits for a restart. A page that loads after the
    /// announcement went out reads it here.
    pub fn get_pending_update(&self) -> (r: Option<String>)
        ensures
            crate::text::text_of(r) == self@.pending,
            r is Some <==> self.pending is Some,
            r matches Some(version) ==> (self.pending matches Some(own) && version@ == own@),
    {
        match &self.pending {
            Some(version) => Some(version.clone()),
            None => None,
        }
    }

    /// The page asks to restart into the update: done if one is downloaded,
    /// and nothing otherwise.
    pub fn update_restart(&self) -> (r: Vec<Effect<String>>)
        ensures
            effects_of(r@) == self@.restarted(),
            self.pending is Some ==> r@.len() == 1 && r@[0] is Restart,
            self.pending is None ==> r@.len() == 0,
    {
        let r: Vec<Effect<String>> = if self.pending.is_some() {
            one_effect(Effect::Restart)
        } else {
            no_effects()
        };
        assert(effects_of(r@).len() == r@.len());
        proof {
            if r@.len() == 1 {
                assert(effects_of(r@)[0] == r@[0]@);
            }
        }
        r
    }

    /// The page asks for a background check out of turn. Debug builds are not
    /// signed, so they make none.
    pub fn check_updates_silent(&mut self, debug: bool) -> (r: Vec<Effect<String>>)
        ensures
            debug ==> final(self)@ == old(self)@ && effects_of(r@) == Seq::<
                Effect<Seq<char>>,
            >::empty(),
            !debug ==> (final(self)@, effects_of(r@)) == old(self)@.started(false),
            old(self)@.well_formed() ==> final(self)@.well_formed(),
    {
        if debug {
            no_effects()
        } else {
            self.spawn_update_check(false)
        }
    }

    /// The update menu item is chosen: once an update waits, the item reads
    /// "Restart to Update" and does that; before, it starts a check.
    pub fn update_item_chosen(&mut self) -> (r: Vec<Effect<String>>)
        ensures
            (final(self)@, effects_of(r@)) == old(self)@.item_chosen(),
            old(self)@.well_formed() ==> final(self)@.well_formed(),
    {
        if self.pending.is_some() {
            one_effect(Effect::Restart)
        } else {
            self.spawn_update_check(true)
        }
    }
}

} // verus!
