use wpp_desktop::workspace::{create_failure_text, home_dir, workspace_dir};

#[test]
fn default_workspace_is_below_home() {
    assert_eq!(workspace_dir("~/WordPuppi", Some("/Users/rick"), true), Ok("/Users/rick/WordPuppi".to_string()));
    assert_eq!(
        workspace_dir("~/.wpp-desktop-test-542", Some("/home/u"), true),
        Ok("/home/u/.wpp-desktop-test-542".to_string())
    );
}

#[test]
fn other_paths_pass_through() {
    assert_eq!(workspace_dir("/tmp", Some("/home/u"), true), Ok("/tmp".to_string()));
    assert_eq!(workspace_dir("/tmp", None, true), Ok("/tmp".to_string()));
    assert_eq!(workspace_dir("~rick/x", Some("/home/u"), true), Ok("~rick/x".to_string()));
    assert_eq!(workspace_dir("a/~/b", Some("/home/u"), true), Ok("a/~/b".to_string()));
    assert_eq!(workspace_dir("", None, true), Ok("".to_string()));
    assert_eq!(workspace_dir("wörk/ß", None, true), Ok("wörk/ß".to_string()));
}

#[test]
fn bare_tilde_is_home() {
    assert_eq!(workspace_dir("~", Some("/home/u"), true), Ok("/home/u".to_string()));
    assert_eq!(home_dir(Some("/home/u")), Ok("/home/u".to_string()));
}

#[test]
fn tilde_without_home_fails() {
    let no_home: Result<String, String> = Err("cannot expand ~: HOME is not set".to_string());
    assert_eq!(workspace_dir("~", None, true), no_home);
    assert_eq!(workspace_dir("~/x", None, true), no_home);
    assert_eq!(home_dir(None), no_home);
}

#[test]
fn expansion_is_idempotent() {
    for raw in ["~", "~/", "~/a/b", "~//etc", "x", "/x"] {
        let once = workspace_dir(raw, Some("/home/u"), true).unwrap();
        assert_eq!(workspace_dir(&once, Some("/home/u"), true), Ok(once.clone()));
    }
}

#[test]
fn further_separators_do_not_lead_out_of_home() {
    let ann = Some("/home/ann");
    assert_eq!(workspace_dir("~//tmp", ann, true), Ok("/home/ann/tmp".to_string()));
    assert_eq!(workspace_dir("~////a//b", ann, true), Ok("/home/ann/a//b".to_string()));
    assert_eq!(workspace_dir("~///", ann, true), Ok("/home/ann/".to_string()));
    assert_eq!(workspace_dir("~/\\tmp", ann, true), Ok("/home/ann/\\tmp".to_string()));
    assert_eq!(workspace_dir("~//tmp", Some("/"), true), Ok("/tmp".to_string()));
    assert_eq!(workspace_dir("~//ö", Some("/höme"), true), Ok("/höme/ö".to_string()));
}

#[test]
fn elsewhere_the_separator_is_another() {
    let ann = Some("C:\\Users\\ann");
    assert_eq!(workspace_dir("~/WordPuppi", ann, false), Ok("C:\\Users\\ann\\WordPuppi".to_string()));
    assert_eq!(workspace_dir("~//\\tmp", ann, false), Ok("C:\\Users\\ann\\tmp".to_string()));
    assert_eq!(workspace_dir("~\\tmp", ann, false), Ok("~\\tmp".to_string()));
    let long = Some("\\\\?\\C:\\x");
    assert_eq!(workspace_dir("~/a/../b", long, false), Ok("\\\\?\\C:\\x\\b".to_string()));
    assert_eq!(workspace_dir("~//./a", long, false), Ok("\\\\?\\C:\\x\\a".to_string()));
    assert_eq!(workspace_dir("~/", long, false), Ok("\\\\?\\C:\\x\\".to_string()));
    assert_eq!(workspace_dir("~/D:\\x", ann, false), Ok("D:\\x".to_string()));
}

#[test]
fn failed_creation_names_the_directory() {
    assert_eq!(
        create_failure_text("/x/y", "Permission denied (os error 13)"),
        "cannot create workspace dir /x/y: Permission denied (os error 13)"
    );
}
