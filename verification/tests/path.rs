use std::path::Path;
use wpp_desktop::path::{find_prefix, join_path};

#[test]
fn joins_as_paths_do() {
    for base in ["/home/u", "/home/u/", "", "/", "rel", "höme"] {
        for rest in ["WordPuppi", "", "a/b", "/etc", "//x", "ä/ö"] {
            let expected = Path::new(base).join(rest);
            assert_eq!(join_path(base, rest, true), expected.to_str().unwrap());
        }
    }
}

#[test]
fn off_unix_parts_are_joined() {
    for (base, rest, path) in [
        (r"C:\a", "x", r"C:\a\x"),
        (r"C:\", "x", r"C:\x"),
        ("C:/a/", "x", "C:/a/x"),
        ("C:", "x", "C:x"),
        ("z:", "x", "z:x"),
        ("1:", "x", r"1:\x"),
        ("", "x", "x"),
        ("a", "", r"a\"),
        (r"\\server\share", "x", r"\\server\share\x"),
        (r"C:\a", r"b\..\c", r"C:\a\b\..\c"),
    ] {
        assert_eq!(join_path(base, rest, false), path);
    }
    assert_eq!(join_path("C:", "x", true), "C:/x");
    assert_eq!(join_path("/a", "D:x", true), "/a/D:x");
    assert_eq!(join_path(r"\\?\C:\x", "a/../b", true), r"\\?\C:\x/a/../b");
}

#[test]
fn off_unix_a_prefix_stands_alone() {
    for rest in [r"D:\x", "D:x", r"\\server\share\x", r"\\?\D:\x", r"\\.\COM1", "//server/share"] {
        assert_eq!(join_path(r"C:\a", rest, false), rest);
        assert_eq!(join_path(r"\\?\C:\a", rest, false), rest);
    }
}

#[test]
fn off_unix_a_root_keeps_the_prefix() {
    for (base, rest, path) in [
        (r"C:\a", r"\x", r"C:\x"),
        ("C:a", r"\x", r"C:\x"),
        ("a", "/x", "/x"),
        (r"\\server\share\a", r"\x", r"\\server\share\x"),
        (r"\\.\COM1\a", r"\x", r"\\.\COM1\x"),
        (r"\\?\A:\x\y", r"\foo", r"\\?\A:\foo"),
        (r"\\?\UNC\server\share\a", r"\x/.", r"\\?\UNC\server\share\x"),
        (r"\\server", r"\x", r"\x"),
    ] {
        assert_eq!(join_path(base, rest, false), path);
    }
}

#[test]
fn verbatim_paths_are_normalized() {
    for (base, rest, path) in [
        (r"\\?\C:\x", "a/../b", r"\\?\C:\x\b"),
        (r"\\?\C:\bar", "../foo", r"\\?\C:\foo"),
        (r"\\?\C:\bar", "../../foo", r"\\?\C:\foo"),
        (r"\\?\C:\", "../foo", r"\\?\C:\foo"),
        (r"\\?\C:", "foo", r"\\?\C:\foo"),
        (r"\\?\C:", ".", r"\\?\C:"),
        (r"\\?\C:\a", "..", r"\\?\C:\"),
        (r"\\?\C:bar", "../foo", r"\\?\C:bar\foo"),
        (r"\\?\A:", r"..\foo\.", r"\\?\A:\foo"),
        (r"\\?\A:\x\y", r".\foo\.", r"\\?\A:\x\y\foo"),
        (r"\\?\A:\x\\y\", "a//b", r"\\?\A:\x\y\a\b"),
        (r"\\?\A:\x", "", r"\\?\A:\x\"),
        (r"\\?\UNC\server\share", r"..\a", r"\\?\UNC\server\share\a"),
        (r"\\?\cat_pics\ä", "../ö", r"\\?\cat_pics\ö"),
    ] {
        assert_eq!(join_path(base, rest, false), path);
    }
}

#[test]
fn prefixes_are_told_apart() {
    for (path, prefix) in [
        (r"C:\x", "C:"),
        ("x", ""),
        (r"\x", ""),
        ("", ""),
        (r"\\server\share\x", r"\\server\share"),
        (r"\\server", ""),
        (r"\\server\", ""),
        (r"\\\share\x", ""),
        (r"\\.\COM42\x", r"\\.\COM42"),
        ("//./COM42", "//./COM42"),
        (r"\\?\C:\x", r"\\?\C:"),
        (r"\\?\C:x\y", r"\\?\C:x"),
        (r"\\?\pics\x", r"\\?\pics"),
        (r"\\?\UNC\server\share\x", r"\\?\UNC\server\share"),
        (r"\\?\UNC\server", r"\\?\UNC\server"),
        ("//?/C:/x", "//?/C:"),
    ] {
        assert_eq!(find_prefix(path), prefix.chars().count(), "{}", path);
    }
}
