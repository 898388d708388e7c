use crate::channels::{
    cartesian_velocity_channel, joint_channel, joint_velocity_channel, torque_channel,
};
use crate::protocol::{
    joint_log, joint_logs, link_query, log_views, max_links, pose_views, step, velocity_logs,
    AttachmentView, Command, CommandView, Event, FetchError, JointState, LinkPose, LinkPoseView,
    LogEntry, Reaction, ReactionView, Sample, Stage,
};
use crate::text::views;
use vstd::prelude::*;
use vstd::string::*;

verus! {

/// A recorder bound to one robot description: the namespace of the robot
/// instance and the ordered list of its links, the base first.
pub struct RerunRobot {
    root_prefix: String,
    links: Vec<String>,
}

impl RerunRobot {
    /// The engine can address every link of the list.
    #[verifier::type_invariant]
    spec fn within_limit(self) -> bool {
        self.links@.len() <= max_links()
    }

    /// Namespace of the robot instance.
    pub closed spec fn prefix(&self) -> Seq<char> {
        self.root_prefix@
    }

    /// The ordered link list.
    pub closed spec fn links(&self) -> Seq<Seq<char>> {
        views(self.links@)
    }

    /// Binds a recorder to a namespace and an ordered link list.
    pub fn new(root_prefix: String, ordered_links: Vec<String>) -> (robot: RerunRobot)
        requires
            ordered_links.len() <= max_links(),
        ensures
            robot.prefix() == root_prefix@,
            robot.links() == views(ordered_links@),
    {
        RerunRobot { root_prefix, links: ordered_links }
    }

    /// The namespace of the robot instance.
    pub fn root_prefix(&self) -> (prefix: &String)
        ensures
            prefix@ == self.prefix(),
    {
        &self.root_prefix
    }

    /// The ordered link list.
    pub fn ordered_links(&self) -> (links: &Vec<String>)
        ensures
            views(links@) == self.links(),
            links@.len() <= max_links(),
    {
        proof {
            use_type_invariant(self);
        }
        &self.links
    }
}

/// Builds the entries for a joint-state answer.
fn joint_entries<S, V>(prefix: &str, states: Vec<JointState<S>>) -> (logs: Vec<LogEntry<S, V>>)
    ensures
        log_views(logs@) == joint_logs::<S, V>(prefix@, states@),
{
    let mut logs: Vec<LogEntry<S, V>> = Vec::new();
    let count = states.len();
    let mut joint: usize = 0;
    for state in it: states.into_iter()
        invariant
            joint == it.index(),
            it.seq() == states@,
            states@.len() == count,
            logs@.len() == 3 * joint,
            forall|k: int|
                0 <= k < logs@.len() ==> (#[trigger] logs@[k])@ == joint_log::<S, V>(
                    prefix@,
                    states@,
                    k,
                ),
    {
        let JointState { position, velocity, motor_torque } = state;
        logs.push(
            LogEntry { channel: joint_channel(prefix, joint), sample: Sample::Scalar(position) },
        );
        logs.push(
            LogEntry {
                channel: joint_velocity_channel(prefix, joint),
                sample: Sample::Scalar(velocity),
            },
        );
        logs.push(
            LogEntry {
                channel: torque_channel(prefix, joint),
                sample: Sample::Scalar(motor_torque),
            },
        );
        joint += 1;
    }
    logs
}

/// Builds the entries for a velocity answer.
fn velocity_entries<S, V>(prefix: &str, velocity: Option<V>) -> (logs: Vec<LogEntry<S, V>>)
    ensures
        log_views(logs@) == velocity_logs::<S, V>(prefix@, velocity),
{
    let mut logs: Vec<LogEntry<S, V>> = Vec::new();
    if let Some(v) = velocity {
        logs.push(
            LogEntry { channel: cartesian_velocity_channel(prefix), sample: Sample::Velocity(v) },
        );
    }
    logs
}

/// How far the frame under way has come, with the poses resolved so far.
enum Progress<P> {
    Idle,
    JointStates,
    BasePose,
    BaseVelocity { poses: Vec<LinkPose<P>> },
    LinkState { poses: Vec<LinkPose<P>> },
}

impl<P> Progress<P> {
    /// The stage that the recorder is in.
    spec fn stage(self) -> Stage {
        match self {
            Progress::Idle => Stage::Idle,
            Progress::JointStates => Stage::JointStates,
            Progress::BasePose => Stage::BasePose,
            Progress::BaseVelocity { .. } => Stage::BaseVelocity,
            Progress::LinkState { .. } => Stage::LinkState,
        }
    }

    /// The poses that the recorder holds.
    spec fn poses(self) -> Seq<LinkPoseView<P>> {
        match self {
            Progress::BaseVelocity { poses } => pose_views(poses@),
            Progress::LinkState { poses } => pose_views(poses@),
            _ => Seq::empty(),
        }
    }
}

/// A recorder attached to one simulated robot: the state that the step
/// callback keeps from one call to the next.
pub struct Attachment<P> {
    root_prefix: String,
    links: Vec<String>,
    body_id: i32,
    joint_indices: Vec<i32>,
    frame: u64,
    progress: Progress<P>,
}

impl<P> View for Attachment<P> {
    type V = AttachmentView<P>;

    closed spec fn view(&self) -> AttachmentView<P> {
        AttachmentView {
            prefix: self.root_prefix@,
            links: views(self.links@),
            body_id: self.body_id,
            joint_indices: self.joint_indices@,
            frame: self.frame as nat,
            stage: self.progress.stage(),
            poses: self.progress.poses(),
        }
    }
}

impl RerunRobot {
    /// Attaches the recorder to the simulated robot `body_id` with the tracked
    /// joints `joint_indices`. The first frame has index 0.
    pub fn attach_from<P>(self, body_id: i32, joint_indices: Vec<i32>) -> (attached: Attachment<P>)
        ensures
            attached.wf(),
            attached@ == (AttachmentView::<P> {
                prefix: self.prefix(),
                links: self.links(),
                body_id,
                joint_indices: joint_indices@,
                frame: 0,
                stage: Stage::Idle,
                poses: Seq::empty(),
            }),
    {
        proof {
            use_type_invariant(&self);
        }
        Attachment {
            root_prefix: self.root_prefix,
            links: self.links,
            body_id,
            joint_indices,
            frame: 0,
            progress: Progress::Idle,
        }
    }
}

impl<P> Attachment<P> {
    /// Every attached recorder is in a state that the frame's course allows.
    #[verifier::type_invariant]
    spec fn on_course(self) -> bool {
        self@.wf()
    }

    /// The state is one that an attached recorder can be in. Every attached
    /// recorder is at all times; the functions that take one say so of it.
    pub open spec fn wf(&self) -> bool {
        self@.wf()
    }

    /// Index of the next frame: the number of frames emitted so far.
    pub fn frame(&self) -> (frame: u64)
        ensures
            frame == self@.frame,
            self.wf(),
    {
        proof {
            use_type_invariant(self);
        }
        self.frame
    }

    /// Where the recorder stands within the frame.
    pub fn stage(&self) -> (stage: Stage)
        ensures
            stage == self@.stage,
            self.wf(),
    {
        proof {
            use_type_invariant(self);
        }
        match &self.progress {
            Progress::Idle => Stage::Idle,
            Progress::JointStates => Stage::JointStates,
            Progress::BasePose => Stage::BasePose,
            Progress::BaseVelocity { .. } => Stage::BaseVelocity,
            Progress::LinkState { .. } => Stage::LinkState,
        }
    }

    /// The query for the joint states.
    fn joint_query(&self) -> (command: Command<P>)
        ensures
            command@ == (CommandView::<P>::FetchJointStates {
                body_id: self@.body_id,
                joint_indices: self@.joint_indices,
            }),
    {
        let joint_indices = self.joint_indices.clone();
        Command::FetchJointStates { body_id: self.body_id, joint_indices }
    }

    /// The query for the state of the link at `position`.
    fn link_query(&self, position: usize) -> (command: Command<P>)
        requires
            1 <= position <= max_links(),
        ensures
            command@ == link_query::<P>(self@.body_id, position as int),
    {
        Command::FetchLinkState {
            body_id: self.body_id,
            link_index: (position - 1) as i32,
            compute_velocity: true,
            compute_forward_kinematics: true,
        }
    }

    /// The command that the recorder waits on.
    pub fn pending(&self) -> (command: Command<P>)
        ensures
            command@ == self@.pending(),
            self.wf(),
    {
        proof {
            use_type_invariant(self);
        }
        match &self.progress {
            Progress::Idle => Command::Wait,
            Progress::JointStates => self.joint_query(),
            Progress::BasePose => Command::FetchBasePose { body_id: self.body_id },
            Progress::BaseVelocity { .. } => Command::FetchBaseVelocity { body_id: self.body_id },
            Progress::LinkState { poses } => self.link_query(poses.len()),
        }
    }

    /// Goes on, with `poses` resolved, to the next pose or to the frame's
    /// emission; `logs` is what the last answer gave to log.
    fn proceed<S, V>(&mut self, poses: Vec<LinkPose<P>>, logs: Vec<LogEntry<S, V>>) -> (reaction:
        Reaction<S, V, P>)
        requires
            old(self)@.stage == Stage::Idle,
            old(self)@.frame < u64::MAX,
            old(self)@.files(pose_views(poses@)),
        ensures
            (final(self)@, reaction@) == (AttachmentView {
                poses: pose_views(poses@),
                ..old(self)@
            }).proceed(log_views(logs@)),
    {
        proof {
            use_type_invariant(&*self);
        }
        if poses.len() >= self.links.len() {
            let frame = self.frame;
            self.frame = frame + 1;
            Reaction {
                logs,
                command: Command::EmitFrame {
                    frame,
                    poses,
                    sequence: String::from_str("realtime"),
                    detach: false,
                },
            }
        } else if poses.len() == 0 {
            assert(pose_views(poses@) =~= Seq::empty());
            self.progress = Progress::BasePose;
            Reaction { logs, command: Command::FetchBasePose { body_id: self.body_id } }
        } else {
            let command = self.link_query(poses.len());
            self.progress = Progress::LinkState { poses };
            Reaction { logs, command }
        }
    }

    /// The reaction that logs nothing and gives `command`.
    fn only<S, V>(command: Command<P>) -> (reaction: Reaction<S, V, P>)
        ensures
            reaction@ == (ReactionView::<S, V, P> { logs: Seq::empty(), command: command@ }),
    {
        let reaction = Reaction { logs: Vec::new(), command };
        assert(reaction@.logs =~= Seq::empty());
        reaction
    }

    /// Takes one event and says what the host has to log and to do next.
    ///
    /// The frame index must have room to advance.
    pub fn advance<S, V>(&mut self, event: Event<S, V, P>) -> (reaction: Reaction<S, V, P>)
        requires
            old(self)@.frame < u64::MAX,
        ensures
            old(self).wf(),
            final(self).wf(),
            (final(self)@, reaction@) == step(old(self)@, event),
    {
        proof {
            use_type_invariant(&*self);
        }
        let ghost before = self@;
        let mut progress = Progress::Idle;
        std::mem::swap(&mut self.progress, &mut progress);
        match (progress, event) {
            (Progress::Idle, Event::Step) => {
                self.progress = Progress::JointStates;
                Self::only(self.joint_query())
            },
            (Progress::JointStates, Event::JointStates(Some(states))) => {
                let logs = joint_entries(self.root_prefix.as_str(), states);
                let poses: Vec<LinkPose<P>> = Vec::new();
                assert(pose_views(poses@) =~= before.poses);
                self.proceed(poses, logs)
            },
            (Progress::JointStates, Event::JointStates(None)) => Self::only(
                Command::Abort { error: FetchError::JointStates },
            ),
            (Progress::BasePose, Event::BasePose(Some(pose))) => {
                let mut poses = Vec::new();
                poses.push(LinkPose { link: self.links[0].clone(), pose });
                assert(pose_views(poses@) =~= before.with_pose(pose).poses);
                self.progress = Progress::BaseVelocity { poses };
                Self::only(Command::FetchBaseVelocity { body_id: self.body_id })
            },
            (Progress::BasePose, Event::BasePose(None)) => Self::only(
                Command::Abort { error: FetchError::BasePose },
            ),
            (Progress::BaseVelocity { poses }, Event::BaseVelocity(velocity)) => {
                let logs = velocity_entries(self.root_prefix.as_str(), velocity);
                self.proceed(poses, logs)
            },
            (Progress::LinkState { mut poses }, Event::LinkState(Some(state))) => {
                let logs = velocity_entries(self.root_prefix.as_str(), state.world_velocity);
                let link = self.links[poses.len()].clone();
                poses.push(LinkPose { link, pose: state.world_link_frame });
                assert(pose_views(poses@) =~= before.with_pose(state.world_link_frame).poses);
                self.proceed(poses, logs)
            },
            (Progress::LinkState { poses }, Event::LinkState(None)) => Self::only(
                Command::Abort {
                    error: FetchError::LinkState { link_index: (poses.len() - 1) as i32 },
                },
            ),
            (progress, _) => {
                self.progress = progress;
                Self::only(self.pending())
            },
        }
    }
}

} // verus!
