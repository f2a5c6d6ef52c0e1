//! Where the terminal dock opens: the workspace directory.
use vstd::prelude::*;
use vstd::string::*;
use crate::path::{join_path, relative_from};

verus! {

/// What a `~` that cannot be expanded is answered with.
pub const NO_HOME: &'static str = "cannot expand ~: HOME is not set";

/// Whether `raw` names something below the home directory: `~/...`.
pub open spec fn below_home(raw: Seq<char>) -> bool {
    raw.len() >= 2 && raw[0] == '~' && raw[1] == '/'
}

/// Whether `raw` names the home directory itself: `~`.
pub open spec fn is_home(raw: Seq<char>) -> bool {
    raw =~= seq!['~']
}

/// The directory that `raw` names for a user whose home is `home`, if it can
/// be told. What follows `~/` is taken as relative to the home directory, also
/// where it begins with separators of its own.
pub open spec fn expanded(raw: Seq<char>, home: Option<Seq<char>>, unix: bool) -> Option<
    Seq<char>,
> {
    if below_home(raw) {
        match home {
            Some(h) => Some(
                crate::path::joined(h, crate::path::relative(raw.skip(2), unix), unix),
            ),
            None => None,
        }
    } else if is_home(raw) {
        home
    } else {
        Some(raw)
    }
}

/// The characters of an optional home directory.
pub open spec fn home_of(home: Option<&str>) -> Option<Seq<char>> {
    match home {
        Some(h) => Some(h@),
        None => None,
    }
}

/// The home directory, or why there is none.
pub fn home_dir(home: Option<&str>) -> (r: Result<String, String>)
    ensures
        match r {
            Ok(path) => home_of(home) == Some(path@),
            Err(message) => home is None && message@ == NO_HOME@,
        },
{
    match home {
        Some(h) => Ok(String::from_str(h)),
        None => Err(String::from_str(NO_HOME)),
    }
}

/// The workspace directory that `raw` names, on Unix or elsewhere: a leading
/// `~` stands for the home directory, everything else is taken as it is.
pub fn workspace_dir(raw: &str, home: Option<&str>, unix: bool) -> (r: Result<String, String>)
    ensures
        match r {
            Ok(path) => expanded(raw@, home_of(home), unix) == Some(path@),
            Err(message) => expanded(raw@, home_of(home), unix) is None && message@ == NO_HOME@,
        },
{
    let len: usize = raw.unicode_len();
    if len >= 2 && raw.get_char(0) == '~' && raw.get_char(1) == '/' {
        let rest: &str = relative_from(raw, 2, unix);
        match home_dir(home) {
            Ok(h) => Ok(join_path(h.as_str(), rest, unix)),
            Err(message) => Err(message),
        }
    } else if len == 1 && raw.get_char(0) == '~' {
        assert(is_home(raw@));
        home_dir(home)
    } else {
        Ok(String::from_str(raw))
    }
}

/// The message for a workspace directory that could not be created.
pub open spec fn create_failure(path: Seq<char>, error: Seq<char>) -> Seq<char> {
    "cannot create workspace dir "@ + path + ": "@ + error
}

/// Says that the workspace directory could not be created, and why.
pub fn create_failure_text(path: &str, error: &str) -> (r: String)
    ensures
        r@ == create_failure(path@, error@),
{
    String::from_str("cannot create workspace dir ").concat(path).concat(": ").concat(error)
}

/// Only `~` and `~/...` are expanded: any other path, absolute or not, is
/// taken as it is, whatever the home directory, and never fails.
pub proof fn law_other_paths_pass_through(raw: Seq<char>, home: Option<Seq<char>>, unix: bool)
    requires
        !below_home(raw),
        !is_home(raw),
    ensures
        expanded(raw, home, unix) == Some(raw),
{
}

/// A `~` fails exactly where the home directory is unknown.
pub proof fn law_tilde_needs_a_home(raw: Seq<char>, home: Option<Seq<char>>, unix: bool)
    ensures
        expanded(raw, home, unix) is None <==> home is None && (below_home(raw) || is_home(raw)),
{
}

/// What follows `~/` ends up below the home directory, unless it names a drive
/// on a platform that has them. A verbatim home is left out where something
/// follows: the path is normalized then.
pub proof fn law_tilde_leads_below_home(raw: Seq<char>, home: Seq<char>, unix: bool)
    requires
        below_home(raw),
        ({
            let rest = crate::path::relative(raw.skip(2), unix);
            ||| unix
            ||| rest.len() == 0
            ||| !crate::path::has_drive(rest) && !crate::path::is_verbatim(home)
        }),
    ensures
        expanded(raw, Some(home), unix) matches Some(path) && {
            let rest = crate::path::relative(raw.skip(2), unix);
            &&& path.len() >= home.len() + rest.len()
            &&& path.take(home.len() as int) == home
            &&& path.skip(path.len() - rest.len()) == rest
        },
{
    let rest = crate::path::relative(raw.skip(2), unix);
    let path = crate::path::joined(home, rest, unix);
    crate::path::lemma_relative_is_not_rooted(raw.skip(2), unix);
    assert(path.take(home.len() as int) =~= home);
    assert(path.skip(path.len() - rest.len()) =~= rest);
}

/// Off Unix, what follows `~/` leads from a verbatim home to a path that has the
/// prefix of the home and neither `.` nor `..` in it.
pub proof fn law_tilde_is_normalized_below_verbatim_home(raw: Seq<char>, home: Seq<char>)
    requires
        below_home(raw),
        crate::path::is_verbatim(home),
        crate::path::relative(raw.skip(2), false).len() > 0,
        !crate::path::has_drive(crate::path::relative(raw.skip(2), false)),
    ensures
        ({
            let rest = crate::path::relative(raw.skip(2), false);
            let prefix = home.take(crate::path::prefix_len(home));
            let names = crate::path::names_below(home, rest);
            &&& expanded(raw, Some(home), false) == Some(
                if names.len() > 0 {
                    prefix + crate::path::written(names)
                } else if crate::path::is_rooted(
                    home.skip(crate::path::prefix_len(home)),
                    false,
                ) {
                    prefix + seq!['\\']
                } else {
                    prefix
                },
            )
            &&& forall|i: int| 0 <= i < names.len() ==> crate::path::is_name(#[trigger] names[i])
        }),
{
    let rest = crate::path::relative(raw.skip(2), false);
    crate::path::lemma_relative_is_not_rooted(raw.skip(2), false);
    crate::path::law_verbatim_paths_are_normalized(home, rest);
}

/// Expanding twice is expanding once, for a home directory that does not begin
/// with a tilde itself.
pub proof fn law_expansion_is_idempotent(raw: Seq<char>, home: Option<Seq<char>>, unix: bool)
    requires
        home matches Some(h) ==> h.len() > 0 && h[0] != '~',
    ensures
        expanded(raw, home, unix) matches Some(path) ==> expanded(path, home, unix) == Some(path),
{
    if expanded(raw, home, unix) is Some && (below_home(raw) || is_home(raw)) {
        let path = expanded(raw, home, unix)->0;
        let rest = crate::path::relative(raw.skip(2), unix);
        crate::path::lemma_relative_is_not_rooted(raw.skip(2), unix);
        if below_home(raw) && !unix && crate::path::has_drive(rest) {
            assert(path == rest);
        } else if below_home(raw) && !unix && rest.len() > 0 && crate::path::is_verbatim(home->0) {
            crate::path::law_verbatim_paths_are_normalized(home->0, rest);
            assert(path[0] == path.take(4)[0]);
        } else if below_home(raw) {
            law_tilde_leads_below_home(raw, home->0, unix);
            assert(path[0] == path.take(home->0.len() as int)[0]);
        }
        assert(path[0] != '~');
        if is_home(path) {
            assert(path[0] == '~');
        }
    }
}

/// What is expanded: `~` alone, which is the home directory, and `~/` with what
/// follows; nothing else is touched, and nothing else needs a home.
pub proof fn law_what_is_expanded(raw: Seq<char>, home: Option<Seq<char>>, unix: bool)
    ensures
        raw == seq!['~'] ==> expanded(raw, home, unix) == home,
        raw.len() >= 2 && raw[0] == '~' && raw[1] == '/' ==> (expanded(raw, home, unix) is None
            <==> home is None),
        raw != seq!['~'] && !(raw.len() >= 2 && raw[0] == '~' && raw[1] == '/') ==> expanded(
            raw,
            home,
            unix,
        ) == Some(raw),
{
}

/// On Unix, `~`, one slash or more and then something leads to the home
/// directory, one slash and that something; a home that is empty or brings a
/// slash needs none.
pub proof fn law_tilde_stands_for_home_on_unix(home: Seq<char>, slashes: nat, rest: Seq<char>)
    requires
        slashes > 0,
        rest.len() > 0 ==> rest[0] != '/',
    ensures
        ({
            let raw = seq!['~'] + Seq::new(slashes, |i: int| '/') + rest;
            let path = expanded(raw, Some(home), true);
            &&& home.len() == 0 || home.last() == '/' ==> path == Some(home + rest)
            &&& home.len() > 0 && home.last() != '/' ==> path == Some(home + seq!['/'] + rest)
        }),
{
    let raw = seq!['~'] + Seq::new(slashes, |i: int| '/') + rest;
    let more = Seq::new((slashes - 1) as nat, |i: int| '/');
    assert(raw[1] == '/');
    assert(raw.skip(2) =~= more + rest);
    crate::path::law_leading_separators_are_skipped(more, rest, true);
}

/// Off Unix, `~/`, any further separators and then something without a drive
/// leads to the home directory, one backslash and that something, where the home
/// is not verbatim; a home that is empty, brings a separator or is a bare drive
/// needs no backslash.
pub proof fn law_tilde_stands_for_home_off_unix(
    home: Seq<char>,
    more: Seq<char>,
    rest: Seq<char>,
)
    requires
        forall|i: int| 0 <= i < more.len() ==> #[trigger] more[i] == '/' || more[i] == '\\',
        rest.len() > 0 ==> rest[0] != '/' && rest[0] != '\\',
        rest.len() < 2 || rest[1] != ':',
        home.len() < 3 || home[2] != '?',
    ensures
        ({
            let raw = seq!['~', '/'] + more + rest;
            let path = expanded(raw, Some(home), false);
            let drive = home.len() == 2 && home[1] == ':' && ('a' <= home[0] <= 'z' || 'A'
                <= home[0] <= 'Z');
            let closed = home.len() == 0 || home.last() == '/' || home.last() == '\\' || drive;
            &&& closed ==> path == Some(home + rest)
            &&& !closed ==> path == Some(home + seq!['\\'] + rest)
        }),
{
    let raw = seq!['~', '/'] + more + rest;
    assert(raw.skip(2) =~= more + rest);
    crate::path::law_leading_separators_are_skipped(more, rest, false);
}

/// A directory that could not be created is named, with the reason.
pub proof fn law_failed_creation_is_explained(path: Seq<char>, error: Seq<char>)
    ensures
        create_failure(path, error) == "cannot create workspace dir "@ + path + ": "@ + error,
{
}

/// A home directory is read as it is.
pub proof fn law_homes_are_shown(home: Option<&str>)
    ensures
        home_of(home) is Some <==> home is Some,
        home matches Some(h) ==> home_of(home) == Some(h@),
{
}

/// What `workspace_dir` makes of a path on Unix: other paths than `~` and `~/...`
/// are taken as they are; those fail without a home, and otherwise lead to it or
/// below it.
pub proof fn law_workspace_on_unix(raw: &str, home: Option<&str>, r: Result<String, String>)
    requires
        call_ensures(workspace_dir, (raw, home, true), r),
    ensures
        ({
            let whole = raw@ == seq!['~'];
            let below = raw@.len() >= 2 && raw@[0] == '~' && raw@[1] == '/';
            &&& r is Err <==> home is None && (whole || below)
            &&& r matches Err(message) ==> message@ == "cannot expand ~: HOME is not set"@
            &&& !whole && !below ==> (r matches Ok(path) && path@ == raw@)
            &&& (whole && home is Some) ==> (r matches Ok(path) && path@ == home->0@)
            &&& (below && home is Some) ==> (r matches Ok(path) && path@.len() >= home->0@.len()
                && path@.take(home->0@.len() as int) == home->0@)
            &&& (below && home is Some && (raw@.len() == 2 || raw@[2] != '/') && home->0@.len() > 0
                && home->0@.last() != '/') ==> (r matches Ok(path) && path@ == home->0@ + seq!['/']
                + raw@.skip(2))
        }),
{
    law_what_is_expanded(raw@, home_of(home), true);
    if below_home(raw@) && home is Some {
        law_tilde_leads_below_home(raw@, home->0@, true);
        if raw@.len() == 2 || raw@[2] != '/' {
            let rest = raw@.skip(2);
            assert(raw@ =~= seq!['~'] + Seq::new(1, |i: int| '/') + rest);
            law_tilde_stands_for_home_on_unix(home->0@, 1, rest);
        }
    }
}

/// What `workspace_dir` makes of a path off Unix: the same as on Unix of a path
/// without `~`, of `~` alone and without a home; and below the home, where what
/// follows `~/` begins with neither a separator nor a drive and the home is not
/// verbatim, one backslash and what follows.
pub proof fn law_workspace_off_unix(raw: &str, home: Option<&str>, r: Result<String, String>)
    requires
        call_ensures(workspace_dir, (raw, home, false), r),
    ensures
        ({
            let whole = raw@ == seq!['~'];
            let below = raw@.len() >= 2 && raw@[0] == '~' && raw@[1] == '/';
            let plain = raw@.len() > 2 && raw@[2] != '/' && raw@[2] != '\\' && (raw@.len() == 3
                || raw@[3] != ':');
            &&& r is Err <==> home is None && (whole || below)
            &&& r matches Err(message) ==> message@ == "cannot expand ~: HOME is not set"@
            &&& !whole && !below ==> (r matches Ok(path) && path@ == raw@)
            &&& (whole && home is Some) ==> (r matches Ok(path) && path@ == home->0@)
            &&& (below && plain && home is Some && home->0@.len() > 2 && home->0@[2] != '?'
                && home->0@.last() != '/' && home->0@.last() != '\\') ==> (r matches Ok(path)
                && path@ == home->0@ + seq!['\\'] + raw@.skip(2))
        }),
{
    law_what_is_expanded(raw@, home_of(home), false);
    let plain = raw@.len() > 2 && raw@[2] != '/' && raw@[2] != '\\' && (raw@.len() == 3 || raw@[3]
        != ':');
    if below_home(raw@) && plain && home is Some && home->0@.len() > 2 && home->0@[2] != '?' {
        let rest = raw@.skip(2);
        assert(raw@ =~= seq!['~', '/'] + seq![] + rest);
        law_tilde_stands_for_home_off_unix(home->0@, seq![], rest);
    }
}

/// A home that is known is returned as it is, and a missing one is an error; a
/// directory that could not be created is named, with the reason.
pub proof fn law_homes_and_failures(
    home: Option<&str>,
    r: Result<String, String>,
    path: &str,
    error: &str,
    message: String,
)
    requires
        call_ensures(home_dir, (home,), r),
        call_ensures(create_failure_text, (path, error), message),
    ensures
        home matches Some(h) ==> (r matches Ok(dir) && dir@ == h@),
        home is None ==> (r matches Err(told) && told@ == "cannot expand ~: HOME is not set"@),
        message@ == "cannot create workspace dir "@ + path@ + ": "@ + error@,
{
}

} // verus!
