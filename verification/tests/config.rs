use config_link::config::{Config, ConfigItem, Permissions, Task, WorkMode};
use config_link::error::EnvFileError;

fn item(src: &str, dst: &str, permission: Option<u32>) -> ConfigItem {
    ConfigItem { dst: dst.to_string(), src: src.to_string(), permission }
}

fn tasks(config: &Config) -> Vec<Task> {
    let mut out = Vec::new();
    let mut i = 0;
    while let Some(task) = config.task(i) {
        out.push(task.clone());
        i += 1;
    }
    out
}

fn names(config: &Config) -> Vec<String> {
    let mut out = Vec::new();
    let mut i = 0;
    while let Some(task) = config.task(i) {
        out.push(task.name.clone());
        i += 1;
    }
    out
}

#[test]
fn default_work_mode_is_hard_link() {
    assert_eq!(WorkMode::default(), WorkMode::HardLink);
}

#[test]
fn new_config_is_blank() {
    let config = Config::new();
    assert_eq!(config.work_mode(), WorkMode::HardLink);
    assert_eq!(config.len(), 0);
    assert_eq!(config.task(0), None);
    assert_eq!(config.get("a"), None);
    assert_eq!(config.position("a"), None);
}

#[test]
fn set_work_mode_keeps_the_tasks() {
    let mut config = Config::new();
    config.insert("a".to_string(), item("/s", "/d", None));
    config.set_work_mode(WorkMode::SymLink);
    assert_eq!(config.work_mode(), WorkMode::SymLink);
    assert_eq!(config.len(), 1);
    assert_eq!(config.get("a"), Some(&item("/s", "/d", None)));
}

#[test]
fn insert_appends_new_names_in_order() {
    let mut config = Config::new();
    assert_eq!(config.insert("b".to_string(), item("/s1", "/d1", None)), None);
    assert_eq!(config.insert("a".to_string(), item("/s2", "/d2", Some(0o644))), None);
    assert_eq!(config.len(), 2);
    assert_eq!(names(&config), vec!["b".to_string(), "a".to_string()]);
    assert_eq!(config.position("b"), Some(0));
    assert_eq!(config.position("a"), Some(1));
    assert_eq!(config.position("c"), None);
    assert_eq!(
        config.task(1),
        Some(&Task { name: "a".to_string(), item: item("/s2", "/d2", Some(0o644)) })
    );
    assert_eq!(config.task(2), None);
}

#[test]
fn insert_replaces_a_task_of_the_same_name() {
    let mut config = Config::new();
    config.insert("a".to_string(), item("/s1", "/d1", None));
    config.insert("b".to_string(), item("/s2", "/d2", None));
    let old = config.insert("a".to_string(), item("/s3", "/d3", Some(0o600)));
    assert_eq!(old, Some(item("/s1", "/d1", None)));
    assert_eq!(config.len(), 2);
    assert_eq!(names(&config), vec!["a".to_string(), "b".to_string()]);
    assert_eq!(config.get("a"), Some(&item("/s3", "/d3", Some(0o600))));
    assert_eq!(config.get("b"), Some(&item("/s2", "/d2", None)));
}

#[test]
fn names_are_compared_as_whole_strings() {
    let mut config = Config::new();
    config.insert("ab".to_string(), item("/s1", "/d1", None));
    assert_eq!(config.get("a"), None);
    assert_eq!(config.get("abc"), None);
    assert_eq!(config.get(""), None);
    assert_eq!(config.get("ab"), Some(&item("/s1", "/d1", None)));
}

#[test]
fn permission_is_handed_out_as_configured() {
    assert_eq!(item("/s", "/d", Some(0o644)).get_permission(), Some(Permissions { mode: 0o644 }));
    assert_eq!(item("/s", "/d", Some(0)).get_permission(), Some(Permissions { mode: 0 }));
    assert_eq!(item("/s", "/d", None).get_permission(), None);
}

#[test]
fn config_fix_up_expands_every_task() {
    let mut config = Config::new();
    config.insert("a".to_string(), item("/tmp/x", "~/y/z", Some(0o600)));
    config.insert("b".to_string(), item("~/src/b", "/etc/b", None));
    assert_eq!(config.fix_home_dir(Some("/home/u")), Ok(()));
    assert_eq!(names(&config), vec!["a".to_string(), "b".to_string()]);
    assert_eq!(config.get("a"), Some(&item("/tmp/x", "/home/u/y/z", Some(0o600))));
    assert_eq!(config.get("b"), Some(&item("/home/u/src/b", "/etc/b", None)));
    let mut i = 0;
    while let Some(task) = config.task(i) {
        assert!(!task.item.src.starts_with('~'));
        assert!(!task.item.dst.starts_with('~'));
        i += 1;
    }
}

#[test]
fn config_fix_up_leaves_no_leading_tilde() {
    let mut config = Config::new();
    config.insert("alone".to_string(), item("~", "~", None));
    config.insert("named".to_string(), item("~name/x", "~~", Some(0o644)));
    config.insert("plain".to_string(), item("rel/~x", "/~", None));
    assert_eq!(config.fix_home_dir(Some("/home/u")), Ok(()));
    assert_eq!(
        tasks(&config),
        vec![
            Task { name: "alone".to_string(), item: item("/home/u", "/home/u", None) },
            Task { name: "named".to_string(), item: item("/home/uname/x", "/home/u~", Some(0o644)) },
            Task { name: "plain".to_string(), item: item("rel/~x", "/~", None) },
        ]
    );
    for task in tasks(&config) {
        assert!(!task.item.src.starts_with('~'));
        assert!(!task.item.dst.starts_with('~'));
    }
}

#[test]
fn config_fix_up_twice_is_fix_up_once() {
    let mut once = Config::new();
    once.insert("a".to_string(), item("~/x", "~/y/z", None));
    once.insert("b".to_string(), item("rel", "~/", None));
    once.fix_home_dir(Some("/home/u")).unwrap();
    let mut twice = Config::new();
    twice.insert("a".to_string(), item("~/x", "~/y/z", None));
    twice.insert("b".to_string(), item("rel", "~/", None));
    twice.fix_home_dir(Some("/home/u")).unwrap();
    twice.fix_home_dir(Some("/home/u")).unwrap();
    assert_eq!(tasks(&once), tasks(&twice));
    assert_eq!(
        tasks(&once),
        vec![
            Task { name: "a".to_string(), item: item("/home/u/x", "/home/u/y/z", None) },
            Task { name: "b".to_string(), item: item("rel", "/home/u/", None) },
        ]
    );
}

#[test]
fn config_fix_up_without_home_fails_and_changes_nothing() {
    let mut config = Config::new();
    config.insert("a".to_string(), item("/tmp/x", "~/y/z", None));
    assert_eq!(config.fix_home_dir(None), Err(EnvFileError::EnvError));
    assert_eq!(config.get("a"), Some(&item("/tmp/x", "~/y/z", None)));
}

#[test]
fn config_fix_up_without_home_fails_without_tasks_too() {
    let mut config = Config::new();
    assert_eq!(config.fix_home_dir(None), Err(EnvFileError::EnvError));
    assert_eq!(config.len(), 0);
    assert_eq!(config.work_mode(), WorkMode::HardLink);
    assert_eq!(config.fix_home_dir(Some("/home/u")), Ok(()));
    assert_eq!(config.len(), 0);
    assert_eq!(config.work_mode(), WorkMode::HardLink);
}

#[test]
fn clones_are_equal() {
    let t = Task { name: "a".to_string(), item: item("/s", "/d", Some(1)) };
    assert_eq!(t.clone(), t);
    assert_eq!(t.item.clone(), t.item);
}
