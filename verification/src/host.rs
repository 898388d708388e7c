use crate::builder::{optional_view, RerunRobotBuilder};
use crate::paths::{join, joined, resolve, resolved};
use crate::text::views;
use vstd::prelude::*;
use vstd::string::*;

verus! {

/// The host of a recording: the name of its session and the directories in
/// which robot descriptions are looked up, in the order they were added.
pub struct RerunHost {
    session: String,
    search_paths: Vec<String>,
}

/// The path at which a description is loaded: the file seen from the
/// directory that the search settled on, or the bare file name if it settled
/// on none.
pub open spec fn description_path(dir: Option<Seq<char>>, urdf: Seq<char>) -> Seq<char> {
    match dir {
        Some(d) => joined(d, urdf),
        None => joined(Seq::empty(), urdf),
    }
}

impl RerunHost {
    /// Name of the recording session.
    pub closed spec fn session(&self) -> Seq<char> {
        self.session@
    }

    /// The search paths, in the order they were added.
    pub closed spec fn search_paths(&self) -> Seq<Seq<char>> {
        views(self.search_paths@)
    }

    /// A host for the session `app_name`, with no search path.
    pub fn new(app_name: &str) -> (host: RerunHost)
        ensures
            host.session() == app_name@,
            host.search_paths() == Seq::<Seq<char>>::empty(),
    {
        RerunHost { session: String::from_str(app_name), search_paths: Vec::new() }
    }

    /// The name of the recording session.
    pub fn session_name(&self) -> (name: &String)
        ensures
            name@ == self.session(),
    {
        &self.session
    }

    /// The search paths, in the order they were added.
    pub fn additional_search_paths(&self) -> (paths: &Vec<String>)
        ensures
            views(paths@) == self.search_paths(),
    {
        &self.search_paths
    }

    /// Adds a directory at the end of the search paths. Nothing is checked of
    /// it, and a directory that is there already is added again.
    pub fn set_additional_search_path(&mut self, path: &str)
        ensures
            final(self).search_paths() == old(self).search_paths().push(path@),
            final(self).session() == old(self).session(),
    {
        self.search_paths.push(String::from_str(path));
    }

    /// The places at which the description `urdf` may lie: for each search
    /// path, in order, the file seen from it.
    pub fn candidates(&self, urdf: &str) -> (paths: Vec<String>)
        ensures
            paths@.len() == self.search_paths().len(),
            forall|i: int|
                0 <= i < paths@.len() ==> (#[trigger] paths@[i])@ == joined(
                    self.search_paths()[i],
                    urdf@,
                ),
    {
        let mut paths: Vec<String> = Vec::new();
        let mut i: usize = 0;
        while i < self.search_paths.len()
            invariant
                i <= self.search_paths.len(),
                paths@.len() == i,
                forall|k: int|
                    0 <= k < i ==> (#[trigger] paths@[k])@ == joined(
                        self.search_paths()[k],
                        urdf@,
                    ),
            decreases self.search_paths.len() - i,
        {
            paths.push(join(self.search_paths[i].as_str(), urdf));
            i += 1;
        }
        paths
    }

    /// Begins the set-up of the robot instance `name`, whose description is
    /// the file `urdf`. `found[i]` tells whether that file exists under the
    /// search path number `i`. The builder's mesh directory is the first
    /// search path under which it exists, and its description is loaded from
    /// there; if it exists under none, the builder has no mesh directory and
    /// loads the bare file name.
    pub fn robot_builder<S, P>(&self, urdf: &str, name: &str, found: &Vec<bool>) -> (builder:
        RerunRobotBuilder<S, P>)
        ensures
            builder.name@ == name@,
            optional_view(builder.mesh_path) == resolved(self.search_paths(), found@),
            builder.load_file@ == description_path(
                resolved(self.search_paths(), found@),
                urdf@,
            ),
            builder.base.is_none(),
            !builder.base_fixed,
            builder.scaling.is_none(),
    {
        let search_path = resolve(&self.search_paths, found);
        let load_file = match &search_path {
            Some(dir) => join(dir.as_str(), urdf),
            None => join("", urdf),
        };
        proof {
            reveal_strlit("");
        }
        RerunRobotBuilder {
            name: String::from_str(name),
            load_file,
            mesh_path: search_path,
            base: None,
            base_fixed: false,
            scaling: None,
        }
    }
}

} // verus!
