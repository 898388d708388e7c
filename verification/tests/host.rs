use nalgebra::{Isometry3, Vector3};
use robot_recorder::{RerunHost, RerunRobotBuilder};

type Builder = RerunRobotBuilder<f64, Isometry3<f64>>;

fn strings(items: &[&str]) -> Vec<String> {
    items.iter().map(|s| s.to_string()).collect()
}

#[test]
fn new_host_has_its_session_name_and_no_search_path() {
    let host = RerunHost::new("simulation");
    assert_eq!(host.session_name(), "simulation");
    assert!(host.additional_search_paths().is_empty());
}

#[test]
fn search_paths_are_kept_in_the_order_added() {
    let mut host = RerunHost::new("simulation");
    host.set_additional_search_path("/a");
    host.set_additional_search_path("/b");
    assert_eq!(host.additional_search_paths(), &strings(&["/a", "/b"]));
    assert_eq!(host.session_name(), "simulation");
}

#[test]
fn search_paths_are_not_deduplicated() {
    let mut host = RerunHost::new("simulation");
    host.set_additional_search_path("/a");
    host.set_additional_search_path("/a");
    assert_eq!(host.additional_search_paths(), &strings(&["/a", "/a"]));
}

#[test]
fn candidates_join_the_description_to_each_search_path() {
    let mut host = RerunHost::new("simulation");
    host.set_additional_search_path("/a");
    host.set_additional_search_path("/b/");
    host.set_additional_search_path("");
    assert_eq!(
        host.candidates("robot.urdf"),
        strings(&["/a/robot.urdf", "/b/robot.urdf", "robot.urdf"])
    );
    assert!(RerunHost::new("simulation").candidates("robot.urdf").is_empty());
}

#[test]
fn builder_loads_from_the_search_path_that_holds_the_description() {
    let mut host = RerunHost::new("simulation");
    host.set_additional_search_path("/a");
    host.set_additional_search_path("/b");
    let builder: Builder = host.robot_builder("robot.urdf", "arm", &vec![false, true]);
    assert_eq!(builder.mesh_path, Some("/b".to_string()));
    assert_eq!(builder.load_file, "/b/robot.urdf");
    assert_eq!(builder.name, "arm");
    assert_eq!(builder.base, None);
    assert!(!builder.base_fixed);
    assert_eq!(builder.scaling, None);
}

#[test]
fn builder_takes_the_first_of_several_matches() {
    let mut host = RerunHost::new("simulation");
    host.set_additional_search_path("/a");
    host.set_additional_search_path("/b");
    host.set_additional_search_path("/c");
    let builder: Builder = host.robot_builder("robot.urdf", "arm", &vec![false, true, true]);
    assert_eq!(builder.mesh_path, Some("/b".to_string()));
    assert_eq!(builder.load_file, "/b/robot.urdf");
}

#[test]
fn builder_falls_back_to_the_bare_file_name() {
    let mut host = RerunHost::new("simulation");
    host.set_additional_search_path("/a");
    host.set_additional_search_path("/b");
    let builder: Builder = host.robot_builder("robot.urdf", "arm", &vec![false, false]);
    assert_eq!(builder.mesh_path, None);
    assert_eq!(builder.load_file, "robot.urdf");
    let lonely: Builder = RerunHost::new("simulation").robot_builder("robot.urdf", "arm", &vec![]);
    assert_eq!(lonely.mesh_path, None);
    assert_eq!(lonely.load_file, "robot.urdf");
}

#[test]
fn fresh_builder_has_the_defaults() {
    let builder = Builder::new("robot.urdf");
    assert_eq!(builder.name, "");
    assert_eq!(builder.load_file, "robot.urdf");
    assert_eq!(builder.mesh_path, None);
    assert_eq!(builder.base, None);
    assert!(!builder.base_fixed);
    assert_eq!(builder.scaling, None);
}

#[test]
fn setters_change_one_field_each() {
    let base = Isometry3::new(Vector3::new(1.0, 2.0, 3.0), Vector3::zeros());
    let builder = Builder::new("robot.urdf")
        .name("arm".to_string())
        .mesh_path("/meshes")
        .base(base)
        .base_fixed(true)
        .scaling(0.5);
    assert_eq!(
        builder,
        RerunRobotBuilder {
            name: "arm".to_string(),
            load_file: "robot.urdf".to_string(),
            mesh_path: Some("/meshes".to_string()),
            base: Some(base),
            base_fixed: true,
            scaling: Some(0.5),
        }
    );
}

#[test]
fn a_later_setting_replaces_an_earlier_one() {
    let builder = Builder::new("robot.urdf")
        .name("first".to_string())
        .name("second".to_string())
        .mesh_path("/one")
        .mesh_path("/two")
        .scaling(1.0)
        .scaling(2.0);
    assert_eq!(builder.name, "second");
    assert_eq!(builder.mesh_path, Some("/two".to_string()));
    assert_eq!(builder.scaling, Some(2.0));
}

#[test]
fn namespace_is_built_from_the_name() {
    let builder = Builder::new("robot.urdf").name("arm".to_string());
    assert_eq!(builder.namespace(), "world/robots/arm");
}

#[test]
fn load_binds_the_recorder_to_namespace_and_links() {
    let robot = Builder::new("robot.urdf")
        .name("arm".to_string())
        .load(strings(&["base", "link1", "link2"]));
    assert_eq!(robot.root_prefix(), "world/robots/arm");
    assert_eq!(robot.ordered_links(), &strings(&["base", "link1", "link2"]));
}
