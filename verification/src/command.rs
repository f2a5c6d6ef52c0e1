//! The command that the terminal dock runs: the user's own login shell.
use portable_pty::CommandBuilder;
use vstd::prelude::*;
use vstd::string::*;

verus! {

/// A command line under construction, `portable_pty::CommandBuilder`.
#[verifier::external_type_specification]
#[verifier::external_body]
pub struct ExCommandBuilder(portable_pty::CommandBuilder);

/// The program and its arguments, in order.
pub uninterp spec fn builder_argv(builder: CommandBuilder) -> Seq<Seq<char>>;

/// The directory that the command starts in, if one was set.
pub uninterp spec fn builder_cwd(builder: CommandBuilder) -> Option<Seq<char>>;

/// The environment variables that were set on top of the inherited ones.
pub uninterp spec fn builder_extra_env(builder: CommandBuilder) -> Map<Seq<char>, Seq<char>>;

/// An environment without variables.
pub open spec fn no_variables() -> Map<Seq<char>, Seq<char>> {
    Map::empty()
}

/// Calls `portable_pty::CommandBuilder::new`: the argument vector holds the
/// program alone, no directory is set, and no variable is set beyond the
/// inherited ones (which are left unsaid: they are those of the process).
#[verifier::external_body]
fn new_builder(program: &str) -> (r: CommandBuilder)
    ensures
        builder_argv(r) == seq![program@],
        builder_cwd(r) is None,
        builder_extra_env(r) == no_variables(),
{
    CommandBuilder::new(program)
}

/// Calls `portable_pty::CommandBuilder::arg`: the argument goes to the end of
/// the vector, and the rest stays. It panics on a builder without a program,
/// which `requires` leaves out.
#[verifier::external_body]
fn push_arg(builder: &mut CommandBuilder, arg: &str)
    requires
        builder_argv(*old(builder)).len() > 0,
    ensures
        builder_argv(*final(builder)) == builder_argv(*old(builder)).push(arg@),
        builder_cwd(*final(builder)) == builder_cwd(*old(builder)),
        builder_extra_env(*final(builder)) == builder_extra_env(*old(builder)),
{
    builder.arg(arg)
}

/// Calls `portable_pty::CommandBuilder::cwd`: the directory is replaced, and
/// the rest stays.
#[verifier::external_body]
fn set_cwd(builder: &mut CommandBuilder, dir: &str)
    ensures
        builder_cwd(*final(builder)) == Some(dir@),
        builder_argv(*final(builder)) == builder_argv(*old(builder)),
        builder_extra_env(*final(builder)) == builder_extra_env(*old(builder)),
{
    builder.cwd(dir)
}

/// Calls `portable_pty::CommandBuilder::env`: the variable gets the value, and
/// the argument vector and the directory stay. On a builder without variables
/// of its own it is then the only one. What becomes of other variables that
/// were set before is left unsaid: where names differ in case alone, that
/// depends on the platform.
#[verifier::external_body]
fn set_env(builder: &mut CommandBuilder, name: &str, value: &str)
    ensures
        builder_extra_env(*final(builder)).contains_pair(name@, value@),
        builder_extra_env(*old(builder)) == no_variables()
            ==> builder_extra_env(*final(builder)) == map![name@ => value@],
        builder_argv(*final(builder)) == builder_argv(*old(builder)),
        builder_cwd(*final(builder)) == builder_cwd(*old(builder)),
{
    builder.env(name, value)
}

/// The shell that runs where the user has not chosen one.
pub const DEFAULT_SHELL: &'static str = "/bin/zsh";

/// The terminal type that is announced where the environment names none.
pub const DEFAULT_TERM: &'static str = "xterm-256color";

/// How to start the shell of the dock.
#[derive(Debug, PartialEq, Eq)]
pub struct Login<T> {
    /// The shell to run.
    pub shell: T,
    /// The directory it starts in.
    pub cwd: T,
    /// Whether the environment already names a terminal type.
    pub has_term: bool,
}

impl View for Login<String> {
    type V = Login<Seq<char>>;

    open spec fn view(&self) -> Login<Seq<char>> {
        Login { shell: self.shell@, cwd: self.cwd@, has_term: self.has_term }
    }
}

impl Login<Seq<char>> {
    /// The argument vector: the shell, started as a login shell so that it
    /// reads the user's profile.
    pub open spec fn argv(self) -> Seq<Seq<char>> {
        seq![self.shell, "-l"@]
    }

    /// The variables that are set on top of the inherited ones.
    pub open spec fn extra_env(self) -> Map<Seq<char>, Seq<char>> {
        if self.has_term {
            no_variables()
        } else {
            map!["TERM"@ => DEFAULT_TERM@]
        }
    }
}

/// The shell to run: the user's own, or the default one.
pub open spec fn chosen_shell(shell: Option<Seq<char>>) -> Seq<char> {
    match shell {
        Some(s) => s,
        None => DEFAULT_SHELL@,
    }
}

/// The shell to run: the user's own, or the default one.
pub fn shell_or_default(shell: &Option<String>) -> (r: String)
    ensures
        r@ == chosen_shell(crate::text::text_of(*shell)),
        *shell matches Some(s) ==> r@ == s@,
        *shell is None ==> r@ == "/bin/zsh"@,
{
    match shell {
        Some(s) => s.clone(),
        None => String::from_str(DEFAULT_SHELL),
    }
}

impl Login<String> {
    /// The command line that starts the shell.
    pub fn command(&self) -> (r: CommandBuilder)
        ensures
            builder_argv(r) == self@.argv(),
            builder_cwd(r) == Some(self@.cwd),
            builder_extra_env(r) == self@.extra_env(),
            builder_argv(r) == seq![self.shell@, "-l"@],
            builder_cwd(r) == Some(self.cwd@),
            self.has_term ==> builder_extra_env(r) == Map::<Seq<char>, Seq<char>>::empty(),
            !self.has_term ==> builder_extra_env(r) == map!["TERM"@ => "xterm-256color"@],
    {
        let mut builder: CommandBuilder = new_builder(self.shell.as_str());
        push_arg(&mut builder, "-l");
        set_cwd(&mut builder, self.cwd.as_str());
        if !self.has_term {
            set_env(&mut builder, "TERM", DEFAULT_TERM);
        }
        assert(builder_argv(builder) =~= self@.argv());
        builder
    }
}

/// The dock always runs a login shell: the shell, and `-l` as its only argument,
/// wherever it starts and whether or not a terminal type is set.
pub proof fn law_dock_runs_a_login_shell(login: Login<Seq<char>>)
    ensures
        login.argv().len() == 2,
        login.argv()[0] == login.shell,
        login.argv()[1] == "-l"@,
{
}

/// The directory and the terminal type have no say in the command line, and the
/// shell and the directory none in the environment.
pub proof fn law_command_line_follows_the_shell(a: Login<Seq<char>>, b: Login<Seq<char>>)
    ensures
        a.shell == b.shell ==> a.argv() == b.argv(),
        a.argv() == b.argv() ==> a.shell == b.shell,
        a.has_term == b.has_term ==> a.extra_env() == b.extra_env(),
{
    if a.argv() == b.argv() {
        assert(a.argv()[0] == b.argv()[0]);
    }
}

/// A terminal type is announced where the environment names none, and nothing
/// else is ever added to the environment.
pub proof fn law_only_a_missing_terminal_type_is_set(
    login: Login<Seq<char>>,
    name: Seq<char>,
    value: Seq<char>,
)
    ensures
        login.extra_env().contains_pair(name, value) <==> !login.has_term && name == "TERM"@
            && value == "xterm-256color"@,
        login.extra_env().dom().contains(name) <==> !login.has_term && name == "TERM"@,
{
}

/// The user's own shell is run, whatever it is, and zsh where none is known.
pub proof fn law_users_shell_is_chosen(shell: Option<Seq<char>>)
    ensures
        shell matches Some(own) ==> chosen_shell(shell) == own,
        shell is None ==> chosen_shell(shell) == "/bin/zsh"@,
{
}

/// A login is read as it is, each part for itself.
pub proof fn law_logins_are_shown(login: Login<String>)
    ensures
        login@.shell == login.shell@,
        login@.cwd == login.cwd@,
        login@.has_term == login.has_term,
{
}

/// What `command` builds: the shell as a login shell, in its directory, with a
/// terminal type where the environment has none and nothing else added to it.
pub proof fn law_command_is_the_login_shell(login: &Login<String>, r: CommandBuilder)
    requires
        call_ensures(Login::<String>::command, (login,), r),
    ensures
        builder_argv(r).len() == 2,
        builder_argv(r)[0] == login.shell@,
        builder_argv(r)[1] == "-l"@,
        builder_cwd(r) == Some(login.cwd@),
        builder_extra_env(r).dom().contains("TERM"@) <==> !login.has_term,
        forall|name: Seq<char>|
            #[trigger] builder_extra_env(r).dom().contains(name) ==> name == "TERM"@
                && builder_extra_env(r)[name] == "xterm-256color"@,
{
}

/// Which shell is run: the user's own, and zsh where none is known.
pub proof fn law_shell_is_the_users(shell: &Option<String>, r: String)
    requires
        call_ensures(shell_or_default, (shell,), r),
    ensures
        *shell matches Some(own) ==> r@ == own@,
        *shell is None ==> r@ == "/bin/zsh"@,
{
}

} // verus!
