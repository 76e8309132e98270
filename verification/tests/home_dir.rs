use config_link::config::ConfigItem;
use config_link::error::EnvFileError;
use config_link::path::{fix_home_dir, starts_with_home};

fn item(src: &str, dst: &str, permission: Option<u32>) -> ConfigItem {
    ConfigItem { dst: dst.to_string(), src: src.to_string(), permission }
}

#[test]
fn shorthand_is_expanded() {
    let mut p = "~/y/z".to_string();
    assert_eq!(fix_home_dir(&mut p, Some("/home/u")), Ok(()));
    assert_eq!(p, "/home/u/y/z");
}

#[test]
fn path_without_shorthand_is_kept() {
    let mut p = "/tmp/x".to_string();
    assert_eq!(fix_home_dir(&mut p, Some("/home/u")), Ok(()));
    assert_eq!(p, "/tmp/x");
    let mut q = "rel/~/x".to_string();
    assert_eq!(fix_home_dir(&mut q, Some("/home/u")), Ok(()));
    assert_eq!(q, "rel/~/x");
}

#[test]
fn tilde_alone_becomes_home() {
    let mut p = "~".to_string();
    assert_eq!(fix_home_dir(&mut p, Some("/home/u")), Ok(()));
    assert_eq!(p, "/home/u");
}

#[test]
fn leading_tilde_is_replaced_whatever_follows() {
    let mut p = "~other/x".to_string();
    assert_eq!(fix_home_dir(&mut p, Some("/home/u")), Ok(()));
    assert_eq!(p, "/home/uother/x");
    let mut q = "~~".to_string();
    assert_eq!(fix_home_dir(&mut q, Some("/home/u")), Ok(()));
    assert_eq!(q, "/home/u~");
}

#[test]
fn shorthand_is_found_by_the_first_character() {
    assert!(starts_with_home("~"));
    assert!(starts_with_home("~/"));
    assert!(starts_with_home("~other"));
    assert!(!starts_with_home(""));
    assert!(!starts_with_home("/~"));
    assert!(!starts_with_home("a~/"));
}

#[test]
fn empty_path_is_kept() {
    let mut p = String::new();
    assert_eq!(fix_home_dir(&mut p, Some("/home/u")), Ok(()));
    assert_eq!(p, "");
}

#[test]
fn empty_home_only_drops_the_tilde() {
    let mut p = "~/x".to_string();
    assert_eq!(fix_home_dir(&mut p, Some("")), Ok(()));
    assert_eq!(p, "/x");
    let mut q = "~~x".to_string();
    assert_eq!(fix_home_dir(&mut q, Some("")), Ok(()));
    assert_eq!(q, "~x");
    let mut r = "~".to_string();
    assert_eq!(fix_home_dir(&mut r, Some("")), Ok(()));
    assert_eq!(r, "");
}

#[test]
fn bare_shorthand_becomes_home_with_slash() {
    let mut p = "~/".to_string();
    assert_eq!(fix_home_dir(&mut p, Some("/home/u")), Ok(()));
    assert_eq!(p, "/home/u/");
}

#[test]
fn non_ascii_paths_are_expanded_by_character() {
    let mut p = "~/süß/文件".to_string();
    assert_eq!(fix_home_dir(&mut p, Some("/home/zoë")), Ok(()));
    assert_eq!(p, "/home/zoë/süß/文件");
}

#[test]
fn missing_home_fails_and_keeps_the_path() {
    let mut p = "~/y/z".to_string();
    assert_eq!(fix_home_dir(&mut p, None), Err(EnvFileError::EnvError));
    assert_eq!(p, "~/y/z");
    let mut q = "/tmp/x".to_string();
    assert_eq!(fix_home_dir(&mut q, None), Err(EnvFileError::EnvError));
    assert_eq!(q, "/tmp/x");
}

#[test]
fn fix_up_twice_is_fix_up_once() {
    let mut once = "~/y/z".to_string();
    fix_home_dir(&mut once, Some("/home/u")).unwrap();
    let mut twice = once.clone();
    fix_home_dir(&mut twice, Some("/home/u")).unwrap();
    assert_eq!(once, twice);
    assert!(!once.starts_with('~'));
}

#[test]
fn home_that_is_a_tilde_changes_nothing() {
    let mut p = "~/y".to_string();
    fix_home_dir(&mut p, Some("~")).unwrap();
    assert_eq!(p, "~/y");
    fix_home_dir(&mut p, Some("~")).unwrap();
    assert_eq!(p, "~/y");
}

#[test]
fn home_with_a_tilde_expands_again() {
    let mut p = "~/x".to_string();
    fix_home_dir(&mut p, Some("~/h")).unwrap();
    assert_eq!(p, "~/h/x");
    fix_home_dir(&mut p, Some("~/h")).unwrap();
    assert_eq!(p, "~/h/h/x");
    let mut q = "~".to_string();
    fix_home_dir(&mut q, Some("~u")).unwrap();
    assert_eq!(q, "~u");
    fix_home_dir(&mut q, Some("~u")).unwrap();
    assert_eq!(q, "~uu");
}

#[test]
fn no_path_begins_with_a_tilde_after_the_fix_up() {
    for start in ["~", "~/", "~/y/z", "~name/x", "~~", "/tmp/x", "rel/~", ""] {
        let mut p = start.to_string();
        assert_eq!(fix_home_dir(&mut p, Some("/home/u")), Ok(()));
        assert!(!p.starts_with('~'));
        let once = p.clone();
        assert_eq!(fix_home_dir(&mut p, Some("/home/u")), Ok(()));
        assert_eq!(p, once);
    }
}

#[test]
fn item_fix_up_expands_both_paths() {
    let mut t = item("~/src/a", "~/y/z", Some(0o600));
    assert_eq!(t.fix_home_dir(Some("/home/u")), Ok(()));
    assert_eq!(t, item("/home/u/src/a", "/home/u/y/z", Some(0o600)));
    assert_eq!(t.fix_home_dir(Some("/home/u")), Ok(()));
    assert_eq!(t, item("/home/u/src/a", "/home/u/y/z", Some(0o600)));
}

#[test]
fn item_fix_up_expands_a_tilde_alone_and_a_tilde_before_a_name() {
    let mut t = item("~", "~name/z", None);
    assert_eq!(t.fix_home_dir(Some("/home/u")), Ok(()));
    assert_eq!(t, item("/home/u", "/home/uname/z", None));
    assert!(!t.src.starts_with('~'));
    assert!(!t.dst.starts_with('~'));
}

#[test]
fn item_fix_up_without_home_changes_nothing() {
    let mut t = item("~/src/a", "/y/z", None);
    assert_eq!(t.fix_home_dir(None), Err(EnvFileError::EnvError));
    assert_eq!(t, item("~/src/a", "/y/z", None));
}
