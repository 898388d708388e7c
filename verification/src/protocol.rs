use crate::channels::{
    cartesian_velocity_channel_of, joint_channel_of, joint_velocity_channel_of, torque_channel_of,
};
use vstd::prelude::*;

verus! {

/// What the simulator reports of one joint.
#[derive(Debug, Clone, Copy, PartialEq)]
pub struct JointState<S> {
    pub position: S,
    pub velocity: S,
    pub motor_torque: S,
}

/// What the simulator reports of one link other than the base.
#[derive(Debug, Clone, Copy, PartialEq)]
pub struct LinkState<V, P> {
    pub world_link_frame: P,
    pub world_velocity: Option<V>,
}

/// What the host hands to the recorder: that a simulation step began, or the
/// answer to the query that the recorder asked for last. A query that failed
/// is answered with `None`.
#[derive(Debug, Clone, PartialEq)]
pub enum Event<S, V, P> {
    Step,
    JointStates(Option<Vec<JointState<S>>>),
    BasePose(Option<P>),
    BaseVelocity(Option<V>),
    LinkState(Option<LinkState<V, P>>),
}

/// The value of one log entry.
#[derive(Debug, Clone, Copy, PartialEq)]
pub enum Sample<S, V> {
    Scalar(S),
    Velocity(V),
}

/// One entry for the recording session: a value and the channel it goes to.
#[derive(Debug, Clone, PartialEq)]
pub struct LogEntry<S, V> {
    pub channel: String,
    pub sample: Sample<S, V>,
}

/// A log entry as contracts see it: the channel as a sequence of characters.
pub struct LogEntryView<S, V> {
    pub channel: Seq<char>,
    pub sample: Sample<S, V>,
}

impl<S, V> View for LogEntry<S, V> {
    type V = LogEntryView<S, V>;

    open spec fn view(&self) -> LogEntryView<S, V> {
        LogEntryView { channel: self.channel@, sample: self.sample }
    }
}

/// The world pose of one link, under the link's name.
#[derive(Debug, Clone, PartialEq)]
pub struct LinkPose<P> {
    pub link: String,
    pub pose: P,
}

/// A pose entry as contracts see it: the link's name as a sequence of
/// characters.
pub struct LinkPoseView<P> {
    pub link: Seq<char>,
    pub pose: P,
}

impl<P> View for LinkPose<P> {
    type V = LinkPoseView<P>;

    open spec fn view(&self) -> LinkPoseView<P> {
        LinkPoseView { link: self.link@, pose: self.pose }
    }
}

/// The mandatory query that made a frame fail.
#[derive(Debug, Clone, Copy, PartialEq, Eq)]
pub enum FetchError {
    JointStates,
    BasePose,
    LinkState { link_index: i32 },
}

/// What the host has to do next.
///
/// The four queries go to the simulator, and their answer comes back as the
/// next event. `EmitFrame` and `Abort` end the callback: the first logs the
/// frame and returns `detach` to the step queue, the second returns the error.
/// `Wait` says that nothing is to be done before the next step begins.
#[derive(Debug, Clone, PartialEq)]
pub enum Command<P> {
    FetchJointStates { body_id: i32, joint_indices: Vec<i32> },
    FetchBasePose { body_id: i32 },
    FetchBaseVelocity { body_id: i32 },
    FetchLinkState {
        body_id: i32,
        link_index: i32,
        compute_velocity: bool,
        compute_forward_kinematics: bool,
    },
    EmitFrame { frame: u64, poses: Vec<LinkPose<P>>, sequence: String, detach: bool },
    Abort { error: FetchError },
    Wait,
}

/// A command as contracts see it: lists as sequences, the frame index as a
/// natural number.
pub enum CommandView<P> {
    FetchJointStates { body_id: i32, joint_indices: Seq<i32> },
    FetchBasePose { body_id: i32 },
    FetchBaseVelocity { body_id: i32 },
    FetchLinkState {
        body_id: i32,
        link_index: i32,
        compute_velocity: bool,
        compute_forward_kinematics: bool,
    },
    EmitFrame { frame: nat, poses: Seq<LinkPoseView<P>>, sequence: Seq<char>, detach: bool },
    Abort { error: FetchError },
    Wait,
}

/// The views of a list of pose entries, in order.
pub open spec fn pose_views<P>(poses: Seq<LinkPose<P>>) -> Seq<LinkPoseView<P>> {
    poses.map_values(|p: LinkPose<P>| p@)
}

/// The pose map that a list of entries makes when they are filed one after
/// the other under their links' names: of two entries under one name the
/// later stays.
pub open spec fn pose_map<P>(poses: Seq<LinkPoseView<P>>) -> Map<Seq<char>, P>
    decreases poses.len(),
{
    if poses.len() == 0 {
        Map::empty()
    } else {
        pose_map(poses.drop_last()).insert(poses.last().link, poses.last().pose)
    }
}

/// The views of a list of log entries, in order.
pub open spec fn log_views<S, V>(logs: Seq<LogEntry<S, V>>) -> Seq<LogEntryView<S, V>> {
    logs.map_values(|e: LogEntry<S, V>| e@)
}

impl<P> View for Command<P> {
    type V = CommandView<P>;

    open spec fn view(&self) -> CommandView<P> {
        match *self {
            Command::FetchJointStates { body_id, joint_indices } => CommandView::FetchJointStates {
                body_id,
                joint_indices: joint_indices@,
            },
            Command::FetchBasePose { body_id } => CommandView::FetchBasePose { body_id },
            Command::FetchBaseVelocity { body_id } => CommandView::FetchBaseVelocity { body_id },
            Command::FetchLinkState {
                body_id,
                link_index,
                compute_velocity,
                compute_forward_kinematics,
            } => CommandView::FetchLinkState {
                body_id,
                link_index,
                compute_velocity,
                compute_forward_kinematics,
            },
            Command::EmitFrame { frame, poses, sequence, detach } => CommandView::EmitFrame {
                frame: frame as nat,
                poses: pose_views(poses@),
                sequence: sequence@,
                detach,
            },
            Command::Abort { error } => CommandView::Abort { error },
            Command::Wait => CommandView::Wait,
        }
    }
}

/// The recorder's answer to one event: the entries to log, in this order, and
/// then the command to carry out.
#[derive(Debug, Clone, PartialEq)]
pub struct Reaction<S, V, P> {
    pub logs: Vec<LogEntry<S, V>>,
    pub command: Command<P>,
}

/// A reaction as contracts see it.
pub struct ReactionView<S, V, P> {
    pub logs: Seq<LogEntryView<S, V>>,
    pub command: CommandView<P>,
}

impl<S, V, P> View for Reaction<S, V, P> {
    type V = ReactionView<S, V, P>;

    open spec fn view(&self) -> ReactionView<S, V, P> {
        ReactionView { logs: log_views(self.logs@), command: self.command@ }
    }
}

/// Where a recorder stands within a frame: between two callbacks, or waiting
/// for the answer to one of its four queries.
#[derive(Debug, Clone, Copy, PartialEq, Eq)]
pub enum Stage {
    Idle,
    JointStates,
    BasePose,
    BaseVelocity,
    LinkState,
}

/// The state of an attached recorder.
pub struct AttachmentView<P> {
    /// Namespace of the robot instance.
    pub prefix: Seq<char>,
    /// The ordered link list: the base first.
    pub links: Seq<Seq<char>>,
    /// The simulator's id of the robot.
    pub body_id: i32,
    /// The tracked joints.
    pub joint_indices: Seq<i32>,
    /// Index of the next frame.
    pub frame: nat,
    pub stage: Stage,
    /// The poses resolved so far in the frame under way.
    pub poses: Seq<LinkPoseView<P>>,
}

/// The most links a robot can have: the engine counts them in an `i32` and
/// leaves out the base.
pub open spec fn max_links() -> nat {
    0x8000_0000
}

/// The engine's index of the link at `position` of the ordered link list.
/// The base, at position 0, has none.
pub open spec fn engine_link_index(position: int) -> int {
    position - 1
}

/// The query for the state of the link at `position` of the ordered link
/// list of the robot `body_id`: its world frame and its world velocity.
pub open spec fn link_query<P>(body_id: i32, position: int) -> CommandView<P> {
    CommandView::FetchLinkState {
        body_id,
        link_index: engine_link_index(position) as i32,
        compute_velocity: true,
        compute_forward_kinematics: true,
    }
}

impl<P> AttachmentView<P> {
    /// `poses` are poses of the first links of the list, in order, each under
    /// its link's name.
    pub open spec fn files(self, poses: Seq<LinkPoseView<P>>) -> bool {
        &&& poses.len() <= self.links.len()
        &&& forall|i: int| 0 <= i < poses.len() ==> (#[trigger] poses[i]).link == self.links[i]
    }

    /// The poses resolved so far are those of the first links, in order, and
    /// their number fits the stage.
    pub open spec fn wf(self) -> bool {
        &&& self.links.len() <= max_links()
        &&& self.files(self.poses)
        &&& match self.stage {
            Stage::Idle | Stage::JointStates => self.poses.len() == 0,
            Stage::BasePose => self.poses.len() == 0 < self.links.len(),
            Stage::BaseVelocity => self.poses.len() == 1,
            Stage::LinkState => 1 <= self.poses.len() < self.links.len(),
        }
    }

    /// The query for the pose of the link at `position`.
    pub open spec fn fetch_link(self, position: int) -> CommandView<P> {
        link_query(self.body_id, position)
    }

    /// The command that the recorder waits on.
    pub open spec fn pending(self) -> CommandView<P> {
        match self.stage {
            Stage::Idle => CommandView::Wait,
            Stage::JointStates => CommandView::FetchJointStates {
                body_id: self.body_id,
                joint_indices: self.joint_indices,
            },
            Stage::BasePose => CommandView::FetchBasePose { body_id: self.body_id },
            Stage::BaseVelocity => CommandView::FetchBaseVelocity { body_id: self.body_id },
            Stage::LinkState => self.fetch_link(self.poses.len() as int),
        }
    }

    /// The state between two callbacks, with `frame` as the next index.
    pub open spec fn idle(self, frame: nat) -> AttachmentView<P> {
        AttachmentView { frame, stage: Stage::Idle, poses: Seq::empty(), ..self }
    }

    /// The frame fails on a mandatory query: what was resolved is dropped and
    /// the frame index stays.
    pub open spec fn fail<S, V>(self, error: FetchError) -> (AttachmentView<P>, ReactionView<S, V, P>) {
        (
            self.idle(self.frame),
            ReactionView { logs: Seq::empty(), command: CommandView::Abort { error } },
        )
    }

    /// Goes on after `logs`: to the pose of the next link without one, or, when
    /// every link has its pose, to the frame's emission.
    pub open spec fn proceed<S, V>(self, logs: Seq<LogEntryView<S, V>>) -> (
        AttachmentView<P>,
        ReactionView<S, V, P>,
    ) {
        if self.poses.len() >= self.links.len() {
            (
                self.idle(self.frame + 1),
                ReactionView {
                    logs,
                    command: CommandView::EmitFrame {
                        frame: self.frame,
                        poses: self.poses,
                        sequence: "realtime"@,
                        detach: false,
                    },
                },
            )
        } else if self.poses.len() == 0 {
            let next = AttachmentView { stage: Stage::BasePose, ..self };
            (next, ReactionView { logs, command: next.pending() })
        } else {
            let next = AttachmentView { stage: Stage::LinkState, ..self };
            (next, ReactionView { logs, command: next.pending() })
        }
    }

    /// The state with the pose of the next link added.
    pub open spec fn with_pose(self, pose: P) -> AttachmentView<P> {
        AttachmentView {
            poses: self.poses.push(
                LinkPoseView { link: self.links[self.poses.len() as int], pose },
            ),
            ..self
        }
    }
}

/// The entry number `k` that a joint-state answer gives rise to: position,
/// velocity and motor torque of joint 0, then those of joint 1, and so on.
pub open spec fn joint_log<S, V>(prefix: Seq<char>, states: Seq<JointState<S>>, k: int) -> LogEntryView<
    S,
    V,
> {
    let joint = k / 3;
    if k % 3 == 0 {
        LogEntryView {
            channel: joint_channel_of(prefix, joint as nat),
            sample: Sample::Scalar(states[joint].position),
        }
    } else if k % 3 == 1 {
        LogEntryView {
            channel: joint_velocity_channel_of(prefix, joint as nat),
            sample: Sample::Scalar(states[joint].velocity),
        }
    } else {
        LogEntryView {
            channel: torque_channel_of(prefix, joint as nat),
            sample: Sample::Scalar(states[joint].motor_torque),
        }
    }
}

/// The entries that a joint-state answer gives rise to: three for each joint.
pub open spec fn joint_logs<S, V>(prefix: Seq<char>, states: Seq<JointState<S>>) -> Seq<
    LogEntryView<S, V>,
> {
    Seq::new(3 * states.len(), |k: int| joint_log(prefix, states, k))
}

/// The entries that a velocity answer gives rise to: one if there is a
/// velocity, none otherwise.
pub open spec fn velocity_logs<S, V>(prefix: Seq<char>, velocity: Option<V>) -> Seq<
    LogEntryView<S, V>,
> {
    match velocity {
        Some(v) => seq![
            LogEntryView {
                channel: cartesian_velocity_channel_of(prefix),
                sample: Sample::Velocity(v),
            },
        ],
        None => Seq::empty(),
    }
}

/// One move of the recorder: the state after `event` and the reaction to it.
///
/// An event that does not answer the pending command changes nothing and is
/// answered with that command again.
pub open spec fn step<S, V, P>(s: AttachmentView<P>, event: Event<S, V, P>) -> (
    AttachmentView<P>,
    ReactionView<S, V, P>,
) {
    match (s.stage, event) {
        (Stage::Idle, Event::Step) => {
            let next = AttachmentView { stage: Stage::JointStates, ..s };
            (next, ReactionView { logs: Seq::empty(), command: next.pending() })
        },
        (Stage::JointStates, Event::JointStates(None)) => s.fail(FetchError::JointStates),
        (Stage::JointStates, Event::JointStates(Some(states))) => s.proceed(
            joint_logs(s.prefix, states@),
        ),
        (Stage::BasePose, Event::BasePose(None)) => s.fail(FetchError::BasePose),
        (Stage::BasePose, Event::BasePose(Some(pose))) => {
            let next = AttachmentView { stage: Stage::BaseVelocity, ..s.with_pose(pose) };
            (next, ReactionView { logs: Seq::empty(), command: next.pending() })
        },
        (Stage::BaseVelocity, Event::BaseVelocity(velocity)) => s.proceed(
            velocity_logs(s.prefix, velocity),
        ),
        (Stage::LinkState, Event::LinkState(None)) => s.fail(
            FetchError::LinkState { link_index: engine_link_index(s.poses.len() as int) as i32 },
        ),
        (Stage::LinkState, Event::LinkState(Some(state))) => s.with_pose(
            state.world_link_frame,
        ).proceed(velocity_logs(s.prefix, state.world_velocity)),
        _ => (s, ReactionView { logs: Seq::empty(), command: s.pending() }),
    }
}

} // verus!
