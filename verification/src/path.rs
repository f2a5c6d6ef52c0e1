//! Paths as text: what separates their parts, the prefixes that they have off
//! Unix, and how one path is resolved against another.
use vstd::prelude::*;
use vstd::string::*;
use crate::text::same_text;

verus! {

/// Whether `c` separates the parts of a path: `/`, and `\` too where the
/// platform is not Unix.
pub open spec fn is_separator(c: char, unix: bool) -> bool {
    c == '/' || (!unix && c == '\\')
}

/// The separator that is put between two parts of a path.
pub open spec fn separator(unix: bool) -> char {
    if unix {
        '/'
    } else {
        '\\'
    }
}

/// Whether `path` begins with a separator.
pub open spec fn is_rooted(path: Seq<char>, unix: bool) -> bool {
    path.len() > 0 && is_separator(path[0], unix)
}

/// `rest` without the separators that it begins with.
pub open spec fn relative(rest: Seq<char>, unix: bool) -> Seq<char>
    decreases rest.len(),
{
    if is_rooted(rest, unix) {
        relative(rest.skip(1), unix)
    } else {
        rest
    }
}

/// Whether `path` begins with a drive, such as `C:`.
pub open spec fn has_drive(path: Seq<char>) -> bool {
    path.len() >= 2 && path[1] == ':' && ('a' <= path[0] <= 'z' || 'A' <= path[0] <= 'Z')
}

/// Whether `path` is verbatim: it begins with `\\?\`.
pub open spec fn is_verbatim(path: Seq<char>) -> bool {
    path.len() >= 4 && path[0] == '\\' && path[1] == '\\' && path[2] == '?' && path[3] == '\\'
}

/// Whether `path` is verbatim and on the network: it begins with `\\?\UNC\`.
pub open spec fn is_verbatim_share(path: Seq<char>) -> bool {
    is_verbatim(path) && path.len() >= 8 && path[4] == 'U' && path[5] == 'N' && path[6] == 'C'
        && path[7] == '\\'
}

/// Whether `path` names a device: it begins with `\\.\`, with either separator.
pub open spec fn is_device(path: Seq<char>) -> bool {
    path.len() >= 4 && is_separator(path[0], false) && is_separator(path[1], false) && path[2]
        == '.' && is_separator(path[3], false)
}

/// Whether `c` ends a part of a path off Unix. In a verbatim path `/` is a
/// character like others.
pub open spec fn divides(c: char, verbatim: bool) -> bool {
    c == '\\' || (!verbatim && c == '/')
}

/// Where the part of `path` that begins at `from` ends.
pub open spec fn part_end(path: Seq<char>, from: int, verbatim: bool) -> int
    decreases path.len() - from,
{
    if from >= path.len() {
        path.len() as int
    } else if divides(path[from], verbatim) {
        from
    } else {
        part_end(path, from + 1, verbatim)
    }
}

/// Where the share ends whose server's name begins at `from`: behind the
/// server where no share is named.
pub open spec fn share_end(path: Seq<char>, from: int, verbatim: bool) -> int {
    let server = part_end(path, from, verbatim);
    let share = part_end(path, server + 1, verbatim);
    if server + 1 < share {
        share
    } else {
        server
    }
}

/// The length of the prefix that `path` has off Unix, 0 where it has none. A
/// prefix is a drive, a device, a server and its share, or the first part of a
/// verbatim path.
pub open spec fn prefix_len(path: Seq<char>) -> int {
    if is_verbatim_share(path) {
        share_end(path, 8, true)
    } else if is_verbatim(path) {
        if has_drive(path.skip(4)) && (path.len() == 6 || is_separator(path[6], false)) {
            6
        } else {
            part_end(path, 4, true)
        }
    } else if is_device(path) {
        part_end(path, 4, false)
    } else if path.len() >= 2 && is_separator(path[0], false) && is_separator(path[1], false) {
        let server = part_end(path, 2, false);
        let share = share_end(path, 2, false);
        if 2 < server < share {
            share
        } else {
            0
        }
    } else if has_drive(path) {
        2
    } else {
        0
    }
}

/// The parts between the separators of `path`, empty ones among them.
pub open spec fn parts(path: Seq<char>, verbatim: bool) -> Seq<Seq<char>>
    decreases path.len(),
{
    if path.len() == 0 {
        seq![seq![]]
    } else {
        let before = parts(path.drop_last(), verbatim);
        if divides(path.last(), verbatim) {
            before.push(seq![])
        } else {
            before.drop_last().push(before.last().push(path.last()))
        }
    }
}

/// The names that lead to where `part` leads from `names`: `..` leads one up,
/// but not above the top, and `.` leads nowhere.
pub open spec fn entered(names: Seq<Seq<char>>, part: Seq<char>) -> Seq<Seq<char>> {
    if part.len() == 0 || part =~= seq!['.'] {
        names
    } else if part =~= seq!['.', '.'] {
        if names.len() > 0 {
            names.drop_last()
        } else {
            names
        }
    } else {
        names.push(part)
    }
}

/// The names after all of `parts`, one after the other.
pub open spec fn entered_all(names: Seq<Seq<char>>, parts: Seq<Seq<char>>) -> Seq<Seq<char>>
    decreases parts.len(),
{
    if parts.len() == 0 {
        names
    } else {
        entered(entered_all(names, parts.drop_last()), parts.last())
    }
}

/// Each of `names` with a `\` in front.
pub open spec fn written(names: Seq<Seq<char>>) -> Seq<char>
    decreases names.len(),
{
    if names.len() == 0 {
        seq![]
    } else {
        written(names.drop_last()) + seq!['\\'] + names.last()
    }
}

/// What follows the prefix of `path` and the separator behind it.
pub open spec fn body(path: Seq<char>) -> Seq<char> {
    let behind = path.skip(prefix_len(path));
    if is_rooted(behind, false) {
        behind.skip(1)
    } else {
        behind
    }
}

/// The names below the prefix of the verbatim path `base` that `rest` leads to.
pub open spec fn names_below(base: Seq<char>, rest: Seq<char>) -> Seq<Seq<char>> {
    let start = if is_rooted(rest, false) {
        seq![]
    } else {
        entered_all(seq![], parts(body(base), true))
    };
    entered_all(start, parts(rest, false))
}

/// `rest` resolved against the verbatim path `base`. Nothing resolves `.` and
/// `..` in a verbatim path later, so none is left in it.
pub open spec fn normalized(base: Seq<char>, rest: Seq<char>) -> Seq<char> {
    let prefix = base.take(prefix_len(base));
    let names = names_below(base, rest);
    if names.len() > 0 {
        prefix + written(names)
    } else if is_rooted(rest, false) || is_rooted(base.skip(prefix_len(base)), false) {
        prefix + seq!['\\']
    } else {
        prefix
    }
}

/// `base` and the relative `rest` with a separator in between, unless `base`
/// brings one or is a bare drive.
pub open spec fn adjoined(base: Seq<char>, rest: Seq<char>, unix: bool) -> Seq<char> {
    if base.len() == 0 || is_separator(base.last(), unix) || (!unix && base.len() == 2
        && has_drive(base)) {
        base + rest
    } else {
        base + seq![separator(unix)] + rest
    }
}

/// `rest` resolved against the directory `base`. On Unix a `rest` that begins
/// with a separator stands alone. Off Unix a `rest` with a prefix does, and one
/// that only begins with a separator replaces all but the prefix of `base`.
pub open spec fn joined(base: Seq<char>, rest: Seq<char>, unix: bool) -> Seq<char> {
    if unix {
        if is_rooted(rest, true) {
            rest
        } else {
            adjoined(base, rest, true)
        }
    } else if prefix_len(rest) > 0 {
        rest
    } else if is_verbatim(base) && rest.len() > 0 {
        normalized(base, rest)
    } else if is_rooted(rest, false) {
        base.take(prefix_len(base)) + rest
    } else {
        adjoined(base, rest, false)
    }
}

/// The characters of `names`.
pub open spec fn texts(names: Seq<String>) -> Seq<Seq<char>> {
    names.map_values(|name: String| name@)
}

fn separates(c: char, unix: bool) -> (r: bool)
    ensures
        r == is_separator(c, unix),
{
    c == '/' || (!unix && c == '\\')
}

fn begins_with_separator(path: &str, unix: bool) -> (r: bool)
    ensures
        r == is_rooted(path@, unix),
{
    path.unicode_len() > 0 && separates(path.get_char(0), unix)
}

fn from_index<'a>(path: &'a str, start: usize) -> (r: &'a str)
    requires
        start <= path@.len(),
    ensures
        r@ == path@.skip(start as int),
{
    let r: &str = path.substring_char(start, path.unicode_len());
    assert(r@ =~= path@.skip(start as int));
    r
}

fn up_to_index<'a>(path: &'a str, end: usize) -> (r: &'a str)
    requires
        end <= path@.len(),
    ensures
        r@ == path@.take(end as int),
{
    let r: &str = path.substring_char(0, end);
    assert(r@ =~= path@.take(end as int));
    r
}

/// The part of `path` from `start` on, without the separators that it begins
/// with.
pub(crate) fn relative_from<'a>(path: &'a str, start: usize, unix: bool) -> (r: &'a str)
    requires
        start <= path@.len(),
    ensures
        r@ == relative(path@.skip(start as int), unix),
{
    let len: usize = path.unicode_len();
    let mut i: usize = start;
    while i < len && separates(path.get_char(i), unix)
        invariant
            start <= i <= len,
            len == path@.len(),
            relative(path@.skip(i as int), unix) == relative(path@.skip(start as int), unix),
        decreases len - i,
    {
        assert(path@.skip(i as int).skip(1) =~= path@.skip(i + 1));
        i = i + 1;
    }
    from_index(path, i)
}

fn names_drive(path: &str) -> (r: bool)
    ensures
        r == has_drive(path@),
{
    if path.unicode_len() < 2 {
        return false;
    }
    let letter: char = path.get_char(0);
    path.get_char(1) == ':' && (('a' <= letter && letter <= 'z') || ('A' <= letter && letter
        <= 'Z'))
}

fn names_verbatim(path: &str) -> (r: bool)
    ensures
        r == is_verbatim(path@),
{
    path.unicode_len() >= 4 && path.get_char(0) == '\\' && path.get_char(1) == '\\'
        && path.get_char(2) == '?' && path.get_char(3) == '\\'
}

fn names_verbatim_share(path: &str) -> (r: bool)
    ensures
        r == is_verbatim_share(path@),
{
    names_verbatim(path) && path.unicode_len() >= 8 && path.get_char(4) == 'U' && path.get_char(5)
        == 'N' && path.get_char(6) == 'C' && path.get_char(7) == '\\'
}

fn names_device(path: &str) -> (r: bool)
    ensures
        r == is_device(path@),
{
    path.unicode_len() >= 4 && separates(path.get_char(0), false) && separates(
        path.get_char(1),
        false,
    ) && path.get_char(2) == '.' && separates(path.get_char(3), false)
}

fn find_part_end(path: &str, from: usize, verbatim: bool) -> (r: usize)
    requires
        from <= path@.len(),
    ensures
        r == part_end(path@, from as int, verbatim),
        from <= r <= path@.len(),
{
    let len: usize = path.unicode_len();
    let mut i: usize = from;
    while i < len && !(path.get_char(i) == '\\' || (!verbatim && path.get_char(i) == '/'))
        invariant
            from <= i <= len,
            len == path@.len(),
            part_end(path@, i as int, verbatim) == part_end(path@, from as int, verbatim),
        decreases len - i,
    {
        i = i + 1;
    }
    i
}

fn find_share_end(path: &str, from: usize, verbatim: bool) -> (r: usize)
    requires
        from <= path@.len(),
    ensures
        r == share_end(path@, from as int, verbatim),
        from <= r <= path@.len(),
{
    let server: usize = find_part_end(path, from, verbatim);
    if server == path.unicode_len() {
        return server;
    }
    let share: usize = find_part_end(path, server + 1, verbatim);
    if server + 1 < share {
        share
    } else {
        server
    }
}

/// The length of the prefix that `path` has off Unix.
pub fn find_prefix(path: &str) -> (r: usize)
    ensures
        r == prefix_len(path@),
        r <= path@.len(),
{
    let len: usize = path.unicode_len();
    if names_verbatim_share(path) {
        find_share_end(path, 8, true)
    } else if names_verbatim(path) {
        if names_drive(from_index(path, 4)) && (len == 6 || separates(path.get_char(6), false)) {
            6
        } else {
            find_part_end(path, 4, true)
        }
    } else if names_device(path) {
        find_part_end(path, 4, false)
    } else if len >= 2 && separates(path.get_char(0), false) && separates(path.get_char(1), false) {
        let server: usize = find_part_end(path, 2, false);
        let share: usize = find_share_end(path, 2, false);
        if 2 < server && server < share {
            share
        } else {
            0
        }
    } else if names_drive(path) {
        2
    } else {
        0
    }
}

fn enter(names: &mut Vec<String>, part: &str)
    ensures
        texts(final(names)@) == entered(texts(old(names)@), part@),
{
    proof {
        reveal_strlit(".");
        reveal_strlit("..");
        assert("."@ =~= seq!['.']);
        assert(".."@ =~= seq!['.', '.']);
    }
    if part.unicode_len() == 0 || same_text(part, ".") {
    } else if same_text(part, "..") {
        if names.len() > 0 {
            let _ = names.pop();
            assert(texts(names@) =~= texts(old(names)@).drop_last());
        }
    } else {
        names.push(String::from_str(part));
        assert(texts(names@) =~= texts(old(names)@).push(part@));
    }
}

fn enter_all(names: &mut Vec<String>, path: &str, verbatim: bool)
    ensures
        texts(final(names)@) == entered_all(texts(old(names)@), parts(path@, verbatim)),
{
    let ghost start_names: Seq<Seq<char>> = texts(names@);
    let len: usize = path.unicode_len();
    let mut start: usize = 0;
    let mut i: usize = 0;
    assert(parts(path@.take(0), verbatim).drop_last() =~= seq![]);
    assert(path@.subrange(0, 0) =~= seq![]);
    while i < len
        invariant
            start <= i <= len,
            len == path@.len(),
            parts(path@.take(i as int), verbatim).len() > 0,
            parts(path@.take(i as int), verbatim).last() == path@.subrange(start as int, i as int),
            texts(names@) == entered_all(
                start_names,
                parts(path@.take(i as int), verbatim).drop_last(),
            ),
        decreases len - i,
    {
        let c: char = path.get_char(i);
        let ghost before = parts(path@.take(i as int), verbatim);
        assert(path@.take(i + 1).drop_last() =~= path@.take(i as int));
        if c == '\\' || (!verbatim && c == '/') {
            enter(names, path.substring_char(start, i));
            start = i + 1;
            assert(before.push(seq![]).drop_last() =~= before);
            assert(path@.subrange(start as int, i + 1) =~= seq![]);
        } else {
            let ghost longer = before.last().push(c);
            assert(before.drop_last().push(longer).drop_last() =~= before.drop_last());
            assert(path@.subrange(start as int, i + 1) =~= longer);
        }
        i = i + 1;
    }
    assert(path@.take(len as int) =~= path@);
    enter(names, path.substring_char(start, len));
}

/// `rest` resolved against the verbatim path `base`.
fn normalize(base: &str, rest: &str) -> (r: String)
    ensures
        r@ == normalized(base@, rest@),
{
    let prefix: usize = find_prefix(base);
    let behind: &str = from_index(base, prefix);
    let rooted: bool = begins_with_separator(behind, false);
    let absolute: bool = begins_with_separator(rest, false);
    let mut names: Vec<String> = Vec::new();
    assert(texts(names@) =~= seq![]);
    if !absolute {
        let inner: &str = if rooted {
            from_index(behind, 1)
        } else {
            behind
        };
        enter_all(&mut names, inner, true);
    }
    enter_all(&mut names, rest, false);
    let mut r: String = String::from_str(up_to_index(base, prefix));
    proof {
        reveal_strlit("\\");
        assert("\\"@ =~= seq!['\\']);
    }
    if names.len() == 0 {
        if absolute || rooted {
            r.append("\\");
        }
        return r;
    }
    let ghost top = r@;
    let mut i: usize = 0;
    assert(top + written(texts(names@).take(0)) =~= top);
    while i < names.len()
        invariant
            i <= names@.len(),
            r@ == top + written(texts(names@).take(i as int)),
            "\\"@ == seq!['\\'],
        decreases names@.len() - i,
    {
        r.append("\\");
        r.append(names[i].as_str());
        proof {
            let done = texts(names@).take(i + 1);
            assert(done.drop_last() =~= texts(names@).take(i as int));
            assert(r@ =~= top + written(done));
        }
        i = i + 1;
    }
    assert(texts(names@).take(i as int) =~= texts(names@));
    r
}

fn adjoin(base: &str, rest: &str, unix: bool) -> (r: String)
    ensures
        r@ == adjoined(base@, rest@, unix),
{
    let len: usize = base.unicode_len();
    if len == 0 || separates(base.get_char(len - 1), unix) || (!unix && len == 2 && names_drive(
        base,
    )) {
        String::from_str(base).concat(rest)
    } else if unix {
        proof {
            reveal_strlit("/");
            assert("/"@ =~= seq!['/']);
        }
        String::from_str(base).concat("/").concat(rest)
    } else {
        proof {
            reveal_strlit("\\");
            assert("\\"@ =~= seq!['\\']);
        }
        String::from_str(base).concat("\\").concat(rest)
    }
}

/// `rest` resolved against the directory `base`, on Unix or elsewhere.
pub fn join_path(base: &str, rest: &str, unix: bool) -> (r: String)
    ensures
        r@ == joined(base@, rest@, unix),
{
    if unix {
        if begins_with_separator(rest, true) {
            String::from_str(rest)
        } else {
            adjoin(base, rest, true)
        }
    } else if find_prefix(rest) > 0 {
        String::from_str(rest)
    } else if names_verbatim(base) && rest.unicode_len() > 0 {
        normalize(base, rest)
    } else if begins_with_separator(rest, false) {
        String::from_str(up_to_index(base, find_prefix(base))).concat(rest)
    } else {
        adjoin(base, rest, false)
    }
}

/// Whether `part` names something below where it is met: it is neither empty
/// nor `.` nor `..`, and no `\` divides it.
pub open spec fn is_name(part: Seq<char>) -> bool {
    &&& part.len() > 0
    &&& part != seq!['.']
    &&& part != seq!['.', '.']
    &&& !part.contains('\\')
}

/// What is relative does not begin with a separator.
pub proof fn lemma_relative_is_not_rooted(rest: Seq<char>, unix: bool)
    ensures
        !is_rooted(relative(rest, unix), unix),
    decreases rest.len(),
{
    if is_rooted(rest, unix) {
        lemma_relative_is_not_rooted(rest.skip(1), unix);
    }
}

proof fn lemma_part_end_is_behind(path: Seq<char>, from: int, verbatim: bool)
    ensures
        from <= path.len() ==> from <= part_end(path, from, verbatim) <= path.len(),
        from > path.len() ==> part_end(path, from, verbatim) == path.len(),
    decreases path.len() - from,
{
    if from < path.len() {
        lemma_part_end_is_behind(path, from + 1, verbatim);
    }
}

proof fn lemma_verbatim_prefix(path: Seq<char>)
    requires
        is_verbatim(path),
    ensures
        4 <= prefix_len(path) <= path.len(),
{
    lemma_part_end_is_behind(path, 4, true);
    if is_verbatim_share(path) {
        let server = part_end(path, 8, true);
        lemma_part_end_is_behind(path, 8, true);
        lemma_part_end_is_behind(path, server + 1, true);
    }
}

proof fn lemma_parts_are_divided(path: Seq<char>, verbatim: bool)
    ensures
        parts(path, verbatim).len() > 0,
        forall|i: int|
            0 <= i < parts(path, verbatim).len() ==> !(#[trigger] parts(
                path,
                verbatim,
            )[i]).contains('\\'),
    decreases path.len(),
{
    if path.len() > 0 {
        lemma_parts_are_divided(path.drop_last(), verbatim);
    }
}

proof fn lemma_entered_are_names(names: Seq<Seq<char>>, parts: Seq<Seq<char>>)
    requires
        forall|i: int| 0 <= i < names.len() ==> is_name(#[trigger] names[i]),
        forall|i: int| 0 <= i < parts.len() ==> !(#[trigger] parts[i]).contains('\\'),
    ensures
        forall|i: int|
            0 <= i < entered_all(names, parts).len() ==> is_name(
                #[trigger] entered_all(names, parts)[i],
            ),
    decreases parts.len(),
{
    if parts.len() > 0 {
        lemma_entered_are_names(names, parts.drop_last());
        let before = entered_all(names, parts.drop_last());
        let after = entered_all(names, parts);
        assert(!parts[parts.len() - 1].contains('\\'));
        assert forall|i: int| 0 <= i < after.len() implies is_name(#[trigger] after[i]) by {
            if i < before.len() {
                assert(is_name(before[i]));
            }
        }
    }
}

/// Resolving against a verbatim path gives a normalized one: its prefix is kept,
/// and what follows are names, none of them `.` or `..`, each behind one `\`.
pub proof fn law_verbatim_paths_are_normalized(base: Seq<char>, rest: Seq<char>)
    requires
        is_verbatim(base),
        rest.len() > 0,
        prefix_len(rest) == 0,
    ensures
        joined(base, rest, false) == normalized(base, rest),
        joined(base, rest, false).len() >= prefix_len(base) >= 4,
        joined(base, rest, false).take(prefix_len(base)) == base.take(prefix_len(base)),
        joined(base, rest, false).take(4) == base.take(4),
        forall|i: int|
            0 <= i < names_below(base, rest).len() ==> is_name(
                #[trigger] names_below(base, rest)[i],
            ),
{
    let path = joined(base, rest, false);
    let len = prefix_len(base);
    lemma_verbatim_prefix(base);
    assert(path.take(len) =~= base.take(len));
    assert(path.take(4) =~= path.take(len).take(4));
    assert(base.take(4) =~= base.take(len).take(4));
    lemma_parts_are_divided(body(base), true);
    lemma_parts_are_divided(rest, false);
    lemma_entered_are_names(seq![], parts(body(base), true));
    let start = if is_rooted(rest, false) {
        seq![]
    } else {
        entered_all(seq![], parts(body(base), true))
    };
    lemma_entered_are_names(start, parts(rest, false));
}

/// Off Unix, what begins with a separator but has no prefix replaces all but
/// the prefix of what it is resolved against.
pub proof fn law_prefix_is_kept(base: Seq<char>, rest: Seq<char>)
    requires
        is_rooted(rest, false),
        prefix_len(rest) == 0,
    ensures
        prefix_len(base) <= joined(base, rest, false).len(),
        joined(base, rest, false).take(prefix_len(base)) == base.take(prefix_len(base)),
        !is_verbatim(base) ==> joined(base, rest, false).skip(prefix_len(base)) == rest,
{
    let path = joined(base, rest, false);
    let len = prefix_len(base);
    lemma_prefix_is_inside(base);
    if is_verbatim(base) {
        law_verbatim_paths_are_normalized(base, rest);
    } else {
        assert(path.take(len) =~= base.take(len));
        assert(path.skip(len) =~= rest);
    }
}

proof fn lemma_prefix_is_inside(path: Seq<char>)
    ensures
        0 <= prefix_len(path) <= path.len(),
{
    if is_verbatim(path) {
        lemma_verbatim_prefix(path);
    } else if path.len() >= 2 {
        let server = part_end(path, 2, false);
        lemma_part_end_is_behind(path, 2, false);
        lemma_part_end_is_behind(path, 4, false);
        lemma_part_end_is_behind(path, server + 1, false);
    }
}

/// Separators are `/` and, off Unix, `\`; the one that is put in between is `/`
/// on Unix and `\` elsewhere.
pub proof fn law_separators(c: char, unix: bool)
    ensures
        is_separator(c, true) <==> c == '/',
        is_separator(c, false) <==> c == '/' || c == '\\',
        separator(true) == '/',
        separator(false) == '\\',
        is_separator(separator(unix), unix),
        divides(c, false) <==> c == '/' || c == '\\',
        divides(c, true) <==> c == '\\',
{
}

/// The separators that a path begins with are skipped, all of them and nothing
/// else.
pub proof fn law_leading_separators_are_skipped(lead: Seq<char>, rest: Seq<char>, unix: bool)
    requires
        forall|i: int|
            0 <= i < lead.len() ==> #[trigger] lead[i] == '/' || (!unix && lead[i] == '\\'),
        rest.len() > 0 ==> rest[0] != '/' && (unix || rest[0] != '\\'),
    ensures
        relative(lead + rest, unix) == rest,
    decreases lead.len(),
{
    let path = lead + rest;
    if lead.len() == 0 {
        assert(path =~= rest);
    } else {
        assert(path[0] == lead[0]);
        assert(path.skip(1) =~= lead.skip(1) + rest);
        assert forall|i: int| 0 <= i < lead.skip(1).len() implies #[trigger] lead.skip(1)[i] == '/'
            || (!unix && lead.skip(1)[i] == '\\') by {
            assert(lead[i + 1] == '/' || (!unix && lead[i + 1] == '\\'));
        }
        law_leading_separators_are_skipped(lead.skip(1), rest, unix);
    }
}

/// On Unix a path that begins with a slash stands alone; any other goes below
/// the directory, behind one slash, which an empty directory and one that ends
/// with a slash do not need.
pub proof fn law_joining_on_unix(base: Seq<char>, rest: Seq<char>)
    ensures
        rest.len() > 0 && rest[0] == '/' ==> joined(base, rest, true) == rest,
        (rest.len() == 0 || rest[0] != '/') && (base.len() == 0 || base.last() == '/') ==> joined(
            base,
            rest,
            true,
        ) == base + rest,
        (rest.len() == 0 || rest[0] != '/') && base.len() > 0 && base.last() != '/' ==> joined(
            base,
            rest,
            true,
        ) == base + seq!['/'] + rest,
{
}

/// Off Unix a path with a prefix stands alone, one that begins with a separator
/// goes behind the prefix of the directory, and any other goes below the
/// directory, where that is not verbatim.
pub proof fn law_joining_off_unix(base: Seq<char>, rest: Seq<char>)
    requires
        base.len() < 3 || base[2] != '?',
    ensures
        ({
            let path = joined(base, rest, false);
            let rooted = rest.len() > 0 && (rest[0] == '/' || rest[0] == '\\');
            let drive = base.len() == 2 && base[1] == ':' && ('a' <= base[0] <= 'z' || 'A'
                <= base[0] <= 'Z');
            let closed = base.len() == 0 || base.last() == '/' || base.last() == '\\' || drive;
            &&& prefix_len(rest) > 0 ==> path == rest
            &&& prefix_len(rest) == 0 && rooted ==> path == base.take(prefix_len(base)) + rest
            &&& prefix_len(rest) == 0 && !rooted && closed ==> path == base + rest
            &&& prefix_len(rest) == 0 && !rooted && !closed ==> path == base + seq!['\\'] + rest
        }),
{
    lemma_prefix_is_inside(rest);
}

/// A part ends at the first character that ends one, or with the path.
pub proof fn law_parts_end_at_separators(path: Seq<char>, from: int, verbatim: bool)
    requires
        0 <= from <= path.len(),
    ensures
        ({
            let end = part_end(path, from, verbatim);
            &&& from <= end <= path.len()
            &&& end < path.len() ==> path[end] == '\\' || (!verbatim && path[end] == '/')
            &&& forall|i: int|
                from <= i < end ==> #[trigger] path[i] != '\\' && (verbatim || path[i] != '/')
        }),
    decreases path.len() - from,
{
    if from < path.len() && !divides(path[from], verbatim) {
        law_parts_end_at_separators(path, from + 1, verbatim);
    }
}

/// A part without separators, from where it begins to where the path ends or a
/// separator follows, ends there.
proof fn lemma_part_end_is(path: Seq<char>, from: int, end: int, verbatim: bool)
    requires
        0 <= from <= end <= path.len(),
        forall|i: int| from <= i < end ==> !divides(#[trigger] path[i], verbatim),
        end < path.len() ==> divides(path[end], verbatim),
    ensures
        part_end(path, from, verbatim) == end,
    decreases end - from,
{
    if from < end {
        lemma_part_end_is(path, from + 1, end, verbatim);
    }
}

/// A drive is a prefix of two characters; a path that begins neither with a
/// drive nor with two separators has none.
pub proof fn law_drive_prefix(path: Seq<char>)
    requires
        path.len() < 2 || !((path[0] == '/' || path[0] == '\\') && (path[1] == '/' || path[1]
            == '\\')),
    ensures
        path.len() >= 2 && path[1] == ':' && ('a' <= path[0] <= 'z' || 'A' <= path[0] <= 'Z')
            ==> prefix_len(path) == 2,
        !(path.len() >= 2 && path[1] == ':' && ('a' <= path[0] <= 'z' || 'A' <= path[0] <= 'Z'))
            ==> prefix_len(path) == 0,
{
}

/// A server and its share are a prefix, with whatever follows behind a
/// separator, and either separator will do.
pub proof fn law_share_prefix(
    lead: Seq<char>,
    server: Seq<char>,
    between: char,
    share: Seq<char>,
    tail: Seq<char>,
)
    requires
        lead.len() == 2,
        lead[0] == '/' || lead[0] == '\\',
        lead[1] == '/' || lead[1] == '\\',
        between == '/' || between == '\\',
        server.len() > 0,
        server != seq!['?'],
        server != seq!['.'],
        share.len() > 0,
        forall|i: int| 0 <= i < server.len() ==> #[trigger] server[i] != '/' && server[i] != '\\',
        forall|i: int| 0 <= i < share.len() ==> #[trigger] share[i] != '/' && share[i] != '\\',
        tail.len() > 0 ==> tail[0] == '/' || tail[0] == '\\',
    ensures
        prefix_len(lead + server + seq![between] + share + tail) == 3 + server.len() + share.len(),
{
    let path = lead + server + seq![between] + share + tail;
    let end = 2 + server.len() as int;
    let last = end + 1 + share.len() as int;
    assert(path[0] == lead[0] && path[1] == lead[1]);
    assert(path[end] == between);
    assert forall|i: int| 2 <= i < end implies !divides(#[trigger] path[i], false) by {
        assert(path[i] == server[i - 2]);
    }
    assert forall|i: int| end + 1 <= i < last implies !divides(#[trigger] path[i], false) by {
        assert(path[i] == share[i - end - 1]);
    }
    if tail.len() > 0 {
        assert(path[last] == tail[0]);
    }
    lemma_part_end_is(path, 2, end, false);
    lemma_part_end_is(path, end + 1, last, false);
    assert(path[2] == server[0]);
    if server.len() == 1 {
        assert(server[0] != '?' && server[0] != '.') by {
            if server[0] == '?' {
                assert(server =~= seq!['?']);
            }
            if server[0] == '.' {
                assert(server =~= seq!['.']);
            }
        }
    } else {
        assert(path[3] == server[1]);
    }
}

/// A server without a share is no prefix.
pub proof fn law_server_alone_is_no_prefix(lead: Seq<char>, server: Seq<char>)
    requires
        lead.len() == 2,
        lead[0] == '/' || lead[0] == '\\',
        lead[1] == '/' || lead[1] == '\\',
        forall|i: int| 0 <= i < server.len() ==> #[trigger] server[i] != '/' && server[i] != '\\',
    ensures
        prefix_len(lead + server) == 0,
{
    let path = lead + server;
    assert(path[0] == lead[0] && path[1] == lead[1]);
    assert forall|i: int| 2 <= i < path.len() implies !divides(#[trigger] path[i], false) by {
        assert(path[i] == server[i - 2]);
    }
    if path.len() >= 4 {
        assert(!divides(path[3], false));
    }
    lemma_part_end_is(path, 2, path.len() as int, false);
    lemma_part_end_is_behind(path, path.len() as int + 1, false);
}

/// A device is a prefix up to the end of its name.
pub proof fn law_device_prefix(lead: Seq<char>, name: Seq<char>, tail: Seq<char>)
    requires
        lead.len() == 4,
        lead[0] == '/' || lead[0] == '\\',
        lead[1] == '/' || lead[1] == '\\',
        lead[2] == '.',
        lead[3] == '/' || lead[3] == '\\',
        forall|i: int| 0 <= i < name.len() ==> #[trigger] name[i] != '/' && name[i] != '\\',
        tail.len() > 0 ==> tail[0] == '/' || tail[0] == '\\',
    ensures
        prefix_len(lead + name + tail) == 4 + name.len(),
{
    let path = lead + name + tail;
    let end = 4 + name.len() as int;
    assert(path.take(4) =~= lead);
    assert(forall|i: int| 0 <= i < 4 ==> path.take(4)[i] == #[trigger] path[i]);
    assert forall|i: int| 4 <= i < end implies !divides(#[trigger] path[i], false) by {
        assert(path[i] == name[i - 4]);
    }
    if tail.len() > 0 {
        assert(path[end] == tail[0]);
    }
    lemma_part_end_is(path, 4, end, false);
}

/// The first part of a verbatim path is its prefix, whatever it is but the mark
/// of the network or a drive; `/` does not end it.
pub proof fn law_verbatim_prefix(name: Seq<char>, tail: Seq<char>)
    requires
        name != seq!['U', 'N', 'C'],
        name.len() < 2 || name[1] != ':',
        forall|i: int| 0 <= i < name.len() ==> #[trigger] name[i] != '\\',
        tail.len() > 0 ==> tail[0] == '\\',
    ensures
        prefix_len(seq!['\\', '\\', '?', '\\'] + name + tail) == 4 + name.len(),
        is_verbatim(seq!['\\', '\\', '?', '\\'] + name + tail),
{
    let path = seq!['\\', '\\', '?', '\\'] + name + tail;
    let end = 4 + name.len() as int;
    assert forall|i: int| 4 <= i < end implies !divides(#[trigger] path[i], true) by {
        assert(path[i] == name[i - 4]);
    }
    if tail.len() > 0 {
        assert(path[end] == tail[0]);
    }
    lemma_part_end_is(path, 4, end, true);
    if is_verbatim_share(path) {
        assert(end <= 7) by {
            if end > 7 {
                assert(!divides(path[7], true));
            }
        }
        assert(end >= 7) by {
            if end < 7 {
                assert(path[end] == '\\');
            }
        }
        assert(name =~= seq!['U', 'N', 'C']) by {
            assert(path[4] == name[0] && path[5] == name[1] && path[6] == name[2]);
        }
    }
    if has_drive(path.skip(4)) {
        assert(path.skip(4)[1] == path[5]);
        assert(path.skip(4)[0] == path[4]);
        if name.len() >= 2 {
            assert(path[5] == name[1]);
        } else if name.len() == 1 {
            assert(path[5] == '\\');
        } else {
            assert(path[4] == '\\');
        }
    }
}

/// A verbatim drive is a prefix of six characters, where the path ends or goes on
/// with a separator behind it.
pub proof fn law_verbatim_drive_prefix(letter: char, tail: Seq<char>)
    requires
        'a' <= letter <= 'z' || 'A' <= letter <= 'Z',
        tail.len() > 0 ==> tail[0] == '/' || tail[0] == '\\',
    ensures
        prefix_len(seq!['\\', '\\', '?', '\\', letter, ':'] + tail) == 6,
{
    let path = seq!['\\', '\\', '?', '\\', letter, ':'] + tail;
    assert(path[5] == ':');
    assert(path.skip(4)[0] == letter && path.skip(4)[1] == ':');
    if tail.len() > 0 {
        assert(path[6] == tail[0]);
    }
}

/// A verbatim server and its share are a prefix up to the end of the share.
pub proof fn law_verbatim_share_prefix(server: Seq<char>, share: Seq<char>, tail: Seq<char>)
    requires
        share.len() > 0,
        forall|i: int| 0 <= i < server.len() ==> #[trigger] server[i] != '\\',
        forall|i: int| 0 <= i < share.len() ==> #[trigger] share[i] != '\\',
        tail.len() > 0 ==> tail[0] == '\\',
    ensures
        prefix_len(
            seq!['\\', '\\', '?', '\\', 'U', 'N', 'C', '\\'] + server + seq!['\\'] + share + tail,
        ) == 9 + server.len() + share.len(),
{
    let path = seq!['\\', '\\', '?', '\\', 'U', 'N', 'C', '\\'] + server + seq!['\\'] + share + tail;
    let end = 8 + server.len() as int;
    let last = end + 1 + share.len() as int;
    assert(path[end] == '\\');
    assert forall|i: int| 8 <= i < end implies !divides(#[trigger] path[i], true) by {
        assert(path[i] == server[i - 8]);
    }
    assert forall|i: int| end + 1 <= i < last implies !divides(#[trigger] path[i], true) by {
        assert(path[i] == share[i - end - 1]);
    }
    if tail.len() > 0 {
        assert(path[last] == tail[0]);
    }
    lemma_part_end_is(path, 8, end, true);
    lemma_part_end_is(path, end + 1, last, true);
}

/// Splitting: what holds no separator is one part, and at a separator the parts
/// of what is before it are followed by those of what is behind it.
pub proof fn law_splitting(a: Seq<char>, c: char, b: Seq<char>, verbatim: bool)
    requires
        c == '\\' || (!verbatim && c == '/'),
    ensures
        (forall|i: int|
            0 <= i < a.len() ==> #[trigger] a[i] != '\\' && (verbatim || a[i] != '/'))
            ==> parts(a, verbatim) == seq![a],
        parts(a + seq![c] + b, verbatim) == parts(a, verbatim) + parts(b, verbatim),
{
    lemma_one_part(a, verbatim);
    lemma_split(a, c, b, verbatim);
}

proof fn lemma_one_part(a: Seq<char>, verbatim: bool)
    ensures
        (forall|i: int|
            0 <= i < a.len() ==> #[trigger] a[i] != '\\' && (verbatim || a[i] != '/'))
            ==> parts(a, verbatim) == seq![a],
    decreases a.len(),
{
    if a.len() == 0 {
        assert(a =~= seq![]);
    } else if forall|i: int|
        0 <= i < a.len() ==> #[trigger] a[i] != '\\' && (verbatim || a[i] != '/') {
        let before = a.drop_last();
        assert forall|i: int| 0 <= i < before.len() implies #[trigger] before[i] != '\\' && (
        verbatim || before[i] != '/') by {
            assert(before[i] == a[i]);
        }
        lemma_one_part(before, verbatim);
        assert(a[a.len() - 1] != '\\');
        assert(before.push(a.last()) =~= a);
        assert(parts(a, verbatim) =~= seq![a]);
    }
}

proof fn lemma_split(a: Seq<char>, c: char, b: Seq<char>, verbatim: bool)
    requires
        divides(c, verbatim),
    ensures
        parts(a + seq![c] + b, verbatim) == parts(a, verbatim) + parts(b, verbatim),
    decreases b.len(),
{
    let path = a + seq![c] + b;
    let front = parts(a, verbatim);
    lemma_parts_are_divided(a, verbatim);
    lemma_parts_are_divided(b, verbatim);
    if b.len() == 0 {
        assert(path.drop_last() =~= a);
        assert(parts(path, verbatim) =~= front + parts(b, verbatim));
    } else {
        let before = b.drop_last();
        lemma_parts_are_divided(before, verbatim);
        lemma_split(a, c, before, verbatim);
        assert(path.drop_last() =~= a + seq![c] + before);
        assert(path.last() == b.last());
        assert(parts(path, verbatim) =~= front + parts(b, verbatim));
    }
}

/// Entering a part: an empty one and `.` lead nowhere, `..` leads one up but not
/// above the top, and any other leads to that name.
pub proof fn law_entering(names: Seq<Seq<char>>, part: Seq<char>)
    ensures
        part == Seq::<char>::empty() || part == seq!['.'] ==> entered(names, part) == names,
        part == seq!['.', '.'] && names.len() > 0 ==> entered(names, part) == names.drop_last(),
        part == seq!['.', '.'] && names.len() == 0 ==> entered(names, part) == names,
        part.len() > 0 && part != seq!['.'] && part != seq!['.', '.'] ==> entered(names, part)
            == names.push(part),
{
}

/// Parts are entered one after the other.
pub proof fn law_entering_in_order(
    names: Seq<Seq<char>>,
    first: Seq<Seq<char>>,
    second: Seq<Seq<char>>,
    part: Seq<char>,
)
    ensures
        entered_all(names, Seq::<Seq<char>>::empty()) == names,
        entered_all(names, seq![part]) == entered(names, part),
        entered_all(names, first + second) == entered_all(entered_all(names, first), second),
    decreases second.len(),
{
    reveal_with_fuel(entered_all, 2);
    assert(seq![part].drop_last() =~= seq![]);
    if second.len() == 0 {
        assert(first + second =~= first);
    } else {
        assert((first + second).drop_last() =~= first + second.drop_last());
        law_entering_in_order(names, first, second.drop_last(), part);
    }
}

/// Names are written behind one backslash each, in order.
pub proof fn law_writing_names(names: Seq<Seq<char>>, name: Seq<char>)
    ensures
        written(Seq::<Seq<char>>::empty()) == Seq::<char>::empty(),
        written(names.push(name)) == written(names) + seq!['\\'] + name,
{
    assert(names.push(name).drop_last() =~= names);
}

proof fn lemma_written_reads_back(names: Seq<Seq<char>>)
    requires
        names.len() > 0,
        forall|i: int| 0 <= i < names.len() ==> is_name(#[trigger] names[i]),
    ensures
        written(names).len() > 0,
        written(names)[0] == '\\',
        parts(written(names).skip(1), true) == names,
    decreases names.len(),
{
    let text = written(names);
    let before = names.drop_last();
    let last = names.last();
    assert(is_name(names[names.len() - 1]));
    assert forall|i: int| 0 <= i < last.len() implies #[trigger] last[i] != '\\' by {
        assert(last.contains(last[i]));
    }
    lemma_one_part(last, true);
    if before.len() == 0 {
        assert(written(before) =~= seq![]);
        assert(text.skip(1) =~= last);
        assert(names =~= seq![last]);
    } else {
        assert forall|i: int| 0 <= i < before.len() implies is_name(#[trigger] before[i]) by {
            assert(before[i] == names[i]);
        }
        lemma_written_reads_back(before);
        assert(text.skip(1) =~= written(before).skip(1) + seq!['\\'] + last);
        lemma_split(written(before).skip(1), '\\', last, true);
        assert(parts(text.skip(1), true) =~= names);
    }
}

proof fn lemma_names_are_entered(start: Seq<Seq<char>>, names: Seq<Seq<char>>)
    requires
        forall|i: int| 0 <= i < names.len() ==> is_name(#[trigger] names[i]),
    ensures
        entered_all(start, names) == start + names,
    decreases names.len(),
{
    if names.len() == 0 {
        assert(start + names =~= start);
    } else {
        let before = names.drop_last();
        assert forall|i: int| 0 <= i < before.len() implies is_name(#[trigger] before[i]) by {
            assert(before[i] == names[i]);
        }
        lemma_names_are_entered(start, before);
        assert(is_name(names[names.len() - 1]));
        assert((start + before).push(names.last()) =~= start + names);
    }
}

/// Resolving against a verbatim path of `names` below its prefix goes on from
/// those names, part by part of what is resolved; from the top where that begins
/// with a separator. Where nothing is left below the prefix, the root is.
pub proof fn law_verbatim_joining(prefix: Seq<char>, names: Seq<Seq<char>>, rest: Seq<char>)
    requires
        is_verbatim(prefix + written(names)),
        prefix_len(prefix + written(names)) == prefix.len(),
        names.len() > 0,
        forall|i: int| 0 <= i < names.len() ==> is_name(#[trigger] names[i]),
        rest.len() > 0,
        prefix_len(rest) == 0,
    ensures
        ({
            let rooted = rest[0] == '/' || rest[0] == '\\';
            let start = if rooted {
                Seq::<Seq<char>>::empty()
            } else {
                names
            };
            let reached = entered_all(start, parts(rest, false));
            joined(prefix + written(names), rest, false) == prefix + if reached.len() > 0 {
                written(reached)
            } else {
                seq!['\\']
            }
        }),
{
    let base = prefix + written(names);
    lemma_written_reads_back(names);
    assert(base.take(prefix.len() as int) =~= prefix);
    assert(base.skip(prefix.len() as int) =~= written(names));
    lemma_names_are_entered(seq![], names);
    assert(seq![] + names =~= names);
}

/// Resolving against a verbatim prefix, alone or with its root, goes on from the
/// top. Where that leads nowhere, the root is kept, and added where what is
/// resolved begins with a separator.
pub proof fn law_verbatim_joining_at_the_top(prefix: Seq<char>, root: bool, rest: Seq<char>)
    requires
        ({
            let base = if root {
                prefix + seq!['\\']
            } else {
                prefix
            };
            is_verbatim(base) && prefix_len(base) == prefix.len()
        }),
        rest.len() > 0,
        prefix_len(rest) == 0,
    ensures
        ({
            let base = if root {
                prefix + seq!['\\']
            } else {
                prefix
            };
            let reached = entered_all(Seq::<Seq<char>>::empty(), parts(rest, false));
            let rooted = root || rest[0] == '/' || rest[0] == '\\';
            joined(base, rest, false) == if reached.len() > 0 {
                prefix + written(reached)
            } else if rooted {
                prefix + seq!['\\']
            } else {
                prefix
            }
        }),
{
    let base = if root {
        prefix + seq!['\\']
    } else {
        prefix
    };
    let nothing = Seq::<char>::empty();
    assert(base.take(prefix.len() as int) =~= prefix);
    if root {
        assert(base.skip(prefix.len() as int) =~= seq!['\\']);
        assert(seq!['\\'].skip(1) =~= nothing);
    } else {
        assert(base.skip(prefix.len() as int) =~= nothing);
    }
    assert(body(base) =~= nothing);
    lemma_one_part(nothing, true);
    law_entering_in_order(seq![], seq![], seq![], nothing);
}

/// A single name goes below a verbatim path, and `..` leads one up.
pub proof fn law_verbatim_joining_of_one_part(
    prefix: Seq<char>,
    names: Seq<Seq<char>>,
    name: Seq<char>,
)
    requires
        is_verbatim(prefix + written(names)),
        prefix_len(prefix + written(names)) == prefix.len(),
        names.len() > 1,
        forall|i: int| 0 <= i < names.len() ==> is_name(#[trigger] names[i]),
        is_name(name),
        !name.contains('/'),
        !name.contains(':'),
    ensures
        joined(prefix + written(names), name, false) == prefix + written(names) + seq!['\\'] + name,
        joined(prefix + written(names), seq!['.', '.'], false) == prefix + written(
            names.drop_last(),
        ),
{
    assert forall|i: int| 0 <= i < name.len() implies #[trigger] name[i] != '\\' && name[i] != '/'
        && name[i] != ':' by {
        assert(name.contains(name[i]));
    }
    lemma_one_part(name, false);
    lemma_one_part(seq!['.', '.'], false);
    law_entering_in_order(names, seq![], seq![], name);
    law_entering_in_order(names, seq![], seq![], seq!['.', '.']);
    assert(name[0] != '/' && name[0] != '\\');
    if name.len() >= 2 {
        assert(name[1] != ':');
    }
    law_verbatim_joining(prefix, names, name);
    law_verbatim_joining(prefix, names, seq!['.', '.']);
    law_writing_names(names, name);
    assert(prefix + (written(names) + seq!['\\'] + name) =~= prefix + written(names) + seq!['\\']
        + name);
}

/// Names are read as they are, in their order.
pub proof fn law_names_are_shown(names: Seq<String>)
    ensures
        texts(names).len() == names.len(),
        forall|i: int| 0 <= i < names.len() ==> #[trigger] texts(names)[i] == names[i]@,
{
}

/// What `join_path` makes of two paths on Unix.
pub proof fn law_join_path_on_unix(base: &str, rest: &str, r: String)
    requires
        call_ensures(join_path, (base, rest, true), r),
    ensures
        rest@.len() > 0 && rest@[0] == '/' ==> r@ == rest@,
        (rest@.len() == 0 || rest@[0] != '/') && (base@.len() == 0 || base@.last() == '/') ==> r@
            == base@ + rest@,
        (rest@.len() == 0 || rest@[0] != '/') && base@.len() > 0 && base@.last() != '/' ==> r@
            == base@ + seq!['/'] + rest@,
{
    law_joining_on_unix(base@, rest@);
}

/// What `join_path` makes of two paths off Unix, where the first is not verbatim,
/// and what `find_prefix` says of the first.
pub proof fn law_join_path_off_unix(base: &str, rest: &str, r: String, prefix: usize, own: usize)
    requires
        call_ensures(join_path, (base, rest, false), r),
        call_ensures(find_prefix, (base,), prefix),
        call_ensures(find_prefix, (rest,), own),
        base@.len() < 3 || base@[2] != '?',
    ensures
        ({
            let rooted = rest@.len() > 0 && (rest@[0] == '/' || rest@[0] == '\\');
            let drive = base@.len() == 2 && base@[1] == ':' && ('a' <= base@[0] <= 'z' || 'A'
                <= base@[0] <= 'Z');
            let closed = base@.len() == 0 || base@.last() == '/' || base@.last() == '\\' || drive;
            &&& prefix == prefix_len(base@)
            &&& own == prefix_len(rest@)
            &&& own > 0 ==> r@ == rest@
            &&& own == 0 && rooted ==> r@ == base@.take(prefix as int) + rest@
            &&& own == 0 && !rooted && closed ==> r@ == base@ + rest@
            &&& own == 0 && !rooted && !closed ==> r@ == base@ + seq!['\\'] + rest@
        }),
{
    law_joining_off_unix(base@, rest@);
}

/// `join_path` resolves against a verbatim path as the laws on those have it, and
/// keeps its prefix.
pub proof fn law_join_path_below_verbatim(base: &str, rest: &str, r: String)
    requires
        call_ensures(join_path, (base, rest, false), r),
        is_verbatim(base@),
        rest@.len() > 0,
        prefix_len(rest@) == 0,
    ensures
        r@ == joined(base@, rest@, false),
        r@.len() >= prefix_len(base@),
        r@.take(prefix_len(base@)) == base@.take(prefix_len(base@)),
{
    law_verbatim_paths_are_normalized(base@, rest@);
}

} // verus!
