use robot_recorder::paths::{join, resolve};
use std::path::Path;

fn strings(items: &[&str]) -> Vec<String> {
    items.iter().map(|s| s.to_string()).collect()
}

#[test]
fn join_puts_one_separator_between_directory_and_file() {
    assert_eq!(join("/b", "robot.urdf"), "/b/robot.urdf");
    assert_eq!(join("assets/robots", "arm.urdf"), "assets/robots/arm.urdf");
}

#[test]
fn join_keeps_a_trailing_separator_single() {
    assert_eq!(join("/b/", "robot.urdf"), "/b/robot.urdf");
    assert_eq!(join("/", "robot.urdf"), "/robot.urdf");
}

#[test]
fn join_to_the_empty_directory_is_the_bare_file() {
    assert_eq!(join("", "robot.urdf"), "robot.urdf");
}

#[test]
fn join_lets_an_absolute_file_stand() {
    assert_eq!(join("/a", "/opt/robot.urdf"), "/opt/robot.urdf");
    assert_eq!(join("", "/opt/robot.urdf"), "/opt/robot.urdf");
}

#[test]
fn join_with_an_empty_file_ends_in_the_separator() {
    assert_eq!(join("/a", ""), "/a/");
    assert_eq!(join("", ""), "");
}

#[test]
fn join_handles_names_beyond_ascii() {
    assert_eq!(join("/données", "bras.urdf"), "/données/bras.urdf");
    assert_eq!(join("/機械/", "腕.urdf"), "/機械/腕.urdf");
}

#[test]
fn join_agrees_with_the_platform_on_unix_paths() {
    let cases = [
        ("/a", "robot.urdf"),
        ("/a/", "robot.urdf"),
        ("", "robot.urdf"),
        ("a/b", "c/d.urdf"),
        ("/a", "/abs.urdf"),
        ("/a", ""),
        ("/", "x"),
    ];
    for (dir, file) in cases {
        let expected = Path::new(dir).join(file);
        assert_eq!(Path::new(&join(dir, file)), expected.as_path());
        assert_eq!(join(dir, file), expected.to_str().unwrap());
    }
}

#[test]
fn resolve_returns_the_first_directory_that_was_found() {
    let dirs = strings(&["/a", "/b", "/c"]);
    assert_eq!(resolve(&dirs, &vec![false, true, true]), Some("/b".to_string()));
    assert_eq!(resolve(&dirs, &vec![true, true, true]), Some("/a".to_string()));
    assert_eq!(resolve(&dirs, &vec![false, false, true]), Some("/c".to_string()));
}

#[test]
fn resolve_returns_none_when_nothing_was_found() {
    let dirs = strings(&["/a", "/b"]);
    assert_eq!(resolve(&dirs, &vec![false, false]), None);
    assert_eq!(resolve(&Vec::new(), &Vec::new()), None);
}

#[test]
fn resolve_is_first_match_not_best_match() {
    let dirs = strings(&["/long/way/round", "/b"]);
    assert_eq!(resolve(&dirs, &vec![true, true]), Some("/long/way/round".to_string()));
}

#[test]
fn resolve_takes_a_repeated_directory_at_its_first_place() {
    let dirs = strings(&["/a", "/b", "/a"]);
    assert_eq!(resolve(&dirs, &vec![false, false, true]), Some("/a".to_string()));
}

#[test]
fn resolve_searches_only_where_a_probe_answered() {
    let dirs = strings(&["/a", "/b", "/c"]);
    assert_eq!(resolve(&dirs, &vec![false]), None);
    assert_eq!(resolve(&dirs, &vec![false, true]), Some("/b".to_string()));
    let two = strings(&["/a", "/b"]);
    assert_eq!(resolve(&two, &vec![false, false, true]), None);
}

#[test]
fn description_found_only_under_the_second_search_path() {
    let dirs = strings(&["/a", "/b"]);
    let dir = resolve(&dirs, &vec![false, true]);
    assert_eq!(dir, Some("/b".to_string()));
    assert_eq!(join(&dir.unwrap(), "robot.urdf"), "/b/robot.urdf");
}
