use crate::channels::{namespace, namespace_of};
use crate::protocol::max_links;
use crate::robot::RerunRobot;
use crate::text::views;
use vstd::prelude::*;
use vstd::string::*;

verus! {

/// What is known of a robot before its description is loaded.
///
/// `base` is the pose of the robot's base in the world; where it is `None`
/// the base stands at the origin. `base_fixed` and `scaling` are kept for the
/// caller and have no part in loading.
#[derive(Debug, Clone, PartialEq)]
pub struct RerunRobotBuilder<S, P> {
    pub name: String,
    pub load_file: String,
    pub mesh_path: Option<String>,
    pub base: Option<P>,
    pub base_fixed: bool,
    pub scaling: Option<S>,
}

/// The view of a string that may be missing.
pub open spec fn optional_view(text: Option<String>) -> Option<Seq<char>> {
    match text {
        Some(t) => Some(t@),
        None => None,
    }
}

impl<S, P> RerunRobotBuilder<S, P> {
    /// A builder for a robot whose description is the file `urdf`: no name, no
    /// mesh directory, no base pose, base not fixed, no scale.
    pub fn new(urdf: &str) -> (builder: Self)
        ensures
            builder.name@ == Seq::<char>::empty(),
            builder.load_file@ == urdf@,
            builder.mesh_path.is_none(),
            builder.base.is_none(),
            !builder.base_fixed,
            builder.scaling.is_none(),
    {
        RerunRobotBuilder {
            name: String::new(),
            load_file: String::from_str(urdf),
            mesh_path: None,
            base: None,
            base_fixed: false,
            scaling: None,
        }
    }

    /// Sets the name of the robot instance.
    pub fn name(self, name: String) -> (builder: Self)
        ensures
            builder == (RerunRobotBuilder { name, ..self }),
    {
        RerunRobotBuilder { name, ..self }
    }

    /// Sets the directory in which the description's meshes are looked up.
    pub fn mesh_path(self, mesh_path: &str) -> (builder: Self)
        ensures
            optional_view(builder.mesh_path) == Some(mesh_path@),
            builder.name == self.name,
            builder.load_file == self.load_file,
            builder.base == self.base,
            builder.base_fixed == self.base_fixed,
            builder.scaling == self.scaling,
    {
        RerunRobotBuilder { mesh_path: Some(String::from_str(mesh_path)), ..self }
    }

    /// Sets the pose of the robot's base.
    pub fn base(self, base: P) -> (builder: Self)
        ensures
            builder == (RerunRobotBuilder { base: Some(base), ..self }),
    {
        RerunRobotBuilder { base: Some(base), ..self }
    }

    /// Says whether the robot's base is fixed.
    pub fn base_fixed(self, base_fixed: bool) -> (builder: Self)
        ensures
            builder == (RerunRobotBuilder { base_fixed, ..self }),
    {
        RerunRobotBuilder { base_fixed, ..self }
    }

    /// Sets the uniform scale of the robot.
    pub fn scaling(self, scaling: S) -> (builder: Self)
        ensures
            builder == (RerunRobotBuilder { scaling: Some(scaling), ..self }),
    {
        RerunRobotBuilder { scaling: Some(scaling), ..self }
    }

    /// The namespace under which the robot is recorded.
    pub fn namespace(&self) -> (path: String)
        ensures
            path@ == namespace_of(self.name@),
    {
        namespace(self.name.as_str())
    }

    /// Binds a recorder to the loaded description, whose links are
    /// `ordered_links`, the base first. The recorder files everything under
    /// the namespace of the robot's name.
    pub fn load(self, ordered_links: Vec<String>) -> (robot: RerunRobot)
        requires
            ordered_links.len() <= max_links(),
        ensures
            robot.prefix() == namespace_of(self.name@),
            robot.links() == views(ordered_links@),
    {
        RerunRobot::new(self.namespace(), ordered_links)
    }
}

} // verus!
