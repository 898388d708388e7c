use crate::protocol::{
    engine_link_index, joint_logs, link_query, step, velocity_logs, AttachmentView, CommandView,
    Event, FetchError, JointState, LinkPoseView, LinkState, LogEntryView,
};
use vstd::prelude::*;

verus! {

/// What the simulator would answer in the course of one callback: the joint
/// states, the base pose and velocity, and for each engine link index the
/// state of that link. `None` stands for a query that fails; so does a link
/// index that `link_states` does not reach.
pub struct Snapshot<S, V, P> {
    pub joint_states: Option<Vec<JointState<S>>>,
    pub base_pose: Option<P>,
    pub base_velocity: Option<V>,
    pub link_states: Seq<Option<LinkState<V, P>>>,
}

impl<S, V, P> Snapshot<S, V, P> {
    /// The answer to the query for the link with engine index `link_index`.
    pub open spec fn link_state(self, link_index: int) -> Option<LinkState<V, P>> {
        if 0 <= link_index < self.link_states.len() {
            self.link_states[link_index]
        } else {
            None
        }
    }

    /// The event that answers `command`.
    pub open spec fn answer(self, command: CommandView<P>) -> Event<S, V, P> {
        match command {
            CommandView::FetchJointStates { .. } => Event::JointStates(self.joint_states),
            CommandView::FetchBasePose { .. } => Event::BasePose(self.base_pose),
            CommandView::FetchBaseVelocity { .. } => Event::BaseVelocity(self.base_velocity),
            CommandView::FetchLinkState { link_index, .. } => Event::LinkState(
                self.link_state(link_index as int),
            ),
            _ => Event::Step,
        }
    }

    /// The world pose of the link at `position` of the ordered link list: the
    /// base pose at position 0, else the frame of the link with the engine
    /// index one less.
    pub open spec fn pose_at(self, position: int) -> Option<P> {
        if position == 0 {
            self.base_pose
        } else {
            match self.link_state(engine_link_index(position)) {
                Some(state) => Some(state.world_link_frame),
                None => None,
            }
        }
    }

    /// The world velocity of the link at `position`, if there is one.
    pub open spec fn velocity_at(self, position: int) -> Option<V> {
        if position == 0 {
            self.base_velocity
        } else {
            match self.link_state(engine_link_index(position)) {
                Some(state) => state.world_velocity,
                None => None,
            }
        }
    }

    /// The position at which pose resolution stops when it starts at
    /// `position`: that of the first link from there on whose pose query
    /// fails, or `count` if there is none.
    pub open spec fn resolved_from(self, count: int, position: int) -> int
        decreases count - position,
    {
        if position < count && self.pose_at(position).is_some() {
            self.resolved_from(count, position + 1)
        } else {
            position
        }
    }

    /// The velocity entries of the links at the positions from `from` up to,
    /// not including, `to`.
    pub open spec fn velocity_logs_between(self, prefix: Seq<char>, from: int, to: int) -> Seq<
        LogEntryView<S, V>,
    >
        decreases to - from,
    {
        if from >= to {
            Seq::empty()
        } else {
            velocity_logs(prefix, self.velocity_at(from)) + self.velocity_logs_between(
                prefix,
                from + 1,
                to,
            )
        }
    }

    /// The same answers, but for the velocity of the link at `position`,
    /// which is missing.
    pub open spec fn without_velocity_at(self, position: int) -> Snapshot<S, V, P> {
        if position == 0 {
            Snapshot { base_velocity: None, ..self }
        } else {
            match self.link_state(engine_link_index(position)) {
                Some(state) => Snapshot {
                    link_states: self.link_states.update(
                        engine_link_index(position),
                        Some(
                            LinkState {
                                world_link_frame: state.world_link_frame,
                                world_velocity: None,
                            },
                        ),
                    ),
                    ..self
                },
                None => self,
            }
        }
    }
}

/// A command that asks the simulator for something.
pub open spec fn is_query<P>(command: CommandView<P>) -> bool {
    command is FetchJointStates || command is FetchBasePose || command is FetchBaseVelocity
        || command is FetchLinkState
}

/// What remains of a run of the recorder: the state it ends in, everything it
/// had logged, in order, and the commands it gave, in order.
pub struct Run<S, V, P> {
    pub state: AttachmentView<P>,
    pub logs: Seq<LogEntryView<S, V>>,
    pub commands: Seq<CommandView<P>>,
}

/// Runs the recorder as the host does: hands it `event`, and as long as it
/// replies with a query, hands it the answer from `snapshot`. The run ends
/// with the first command that is no query, or after `patience` answers.
pub open spec fn drive<S, V, P>(
    s: AttachmentView<P>,
    snapshot: Snapshot<S, V, P>,
    event: Event<S, V, P>,
    patience: nat,
) -> Run<S, V, P>
    decreases patience,
{
    let (next, reaction) = step(s, event);
    if patience == 0 || !is_query(reaction.command) {
        Run { state: next, logs: reaction.logs, commands: seq![reaction.command] }
    } else {
        let rest = drive(
            next,
            snapshot,
            snapshot.answer(reaction.command),
            (patience - 1) as nat,
        );
        Run {
            state: rest.state,
            logs: reaction.logs + rest.logs,
            commands: seq![reaction.command] + rest.commands,
        }
    }
}

/// One callback of the step queue on a recorder in state `s`, with the
/// simulator answering from `snapshot`. A frame takes at most three queries
/// besides one for each link.
pub open spec fn callback<S, V, P>(s: AttachmentView<P>, snapshot: Snapshot<S, V, P>) -> Run<
    S,
    V,
    P,
> {
    drive(s, snapshot, Event::Step, s.links.len() + 3)
}

/// The pose map of a frame in which every pose query succeeds: one entry for
/// each link, in the order of the link list.
pub open spec fn frame_poses<S, V, P>(s: AttachmentView<P>, snapshot: Snapshot<S, V, P>) -> Seq<
    LinkPoseView<P>,
> {
    Seq::new(
        s.links.len(),
        |i: int| LinkPoseView { link: s.links[i], pose: snapshot.pose_at(i).unwrap() },
    )
}

/// The position at which pose resolution stops in a frame: that of the first
/// link whose pose cannot be had, or the number of links if there is none.
pub open spec fn frame_stop<S, V, P>(s: AttachmentView<P>, snapshot: Snapshot<S, V, P>) -> int {
    snapshot.resolved_from(s.links.len() as int, 0)
}

/// A frame succeeds when the joint states and the pose of every link can be had.
pub open spec fn frame_succeeds<S, V, P>(s: AttachmentView<P>, snapshot: Snapshot<S, V, P>) -> bool {
    snapshot.joint_states.is_some() && frame_stop(s, snapshot) == s.links.len()
}

/// The command that emits a frame: the index that the recorder holds, the
/// pose of every link, the sequence label, and the word to the step queue to
/// keep the recorder attached.
pub open spec fn frame_emission<S, V, P>(
    s: AttachmentView<P>,
    snapshot: Snapshot<S, V, P>,
) -> CommandView<P> {
    CommandView::EmitFrame {
        frame: s.frame,
        poses: frame_poses(s, snapshot),
        sequence: "realtime"@,
        detach: false,
    }
}

/// The command that ends a callback: the frame, with the index that the
/// recorder holds, or the error of the first mandatory query that failed.
pub open spec fn frame_outcome<S, V, P>(
    s: AttachmentView<P>,
    snapshot: Snapshot<S, V, P>,
) -> CommandView<P> {
    let stop = frame_stop(s, snapshot);
    if snapshot.joint_states.is_none() {
        CommandView::Abort { error: FetchError::JointStates }
    } else if stop == s.links.len() {
        frame_emission(s, snapshot)
    } else if stop == 0 {
        CommandView::Abort { error: FetchError::BasePose }
    } else {
        CommandView::Abort {
            error: FetchError::LinkState { link_index: engine_link_index(stop) as i32 },
        }
    }
}

/// The queries for the links at the positions from `from` up to, not
/// including, `to`: for the base its pose and, if that can be had, its
/// velocity; for every other link its state.
pub open spec fn pose_queries<S, V, P>(
    body_id: i32,
    snapshot: Snapshot<S, V, P>,
    from: int,
    to: int,
) -> Seq<CommandView<P>>
    decreases to - from,
{
    if from >= to {
        Seq::empty()
    } else if from == 0 {
        let base = if snapshot.base_pose.is_some() {
            seq![CommandView::FetchBasePose { body_id }, CommandView::FetchBaseVelocity { body_id }]
        } else {
            seq![CommandView::FetchBasePose { body_id }]
        };
        base + pose_queries(body_id, snapshot, 1, to)
    } else {
        seq![link_query(body_id, from)] + pose_queries(body_id, snapshot, from + 1, to)
    }
}

/// The number of links whose pose a frame asks for: those whose pose can be
/// had and the first one whose pose cannot.
pub open spec fn frame_asked<S, V, P>(s: AttachmentView<P>, snapshot: Snapshot<S, V, P>) -> int {
    if frame_stop(s, snapshot) < s.links.len() {
        frame_stop(s, snapshot) + 1
    } else {
        s.links.len() as int
    }
}

/// The commands of a callback: the query for the joint states, then, if they
/// can be had, the queries for the links in the order of the link list, up to
/// the first that fails, and last the outcome.
pub open spec fn frame_commands<S, V, P>(
    s: AttachmentView<P>,
    snapshot: Snapshot<S, V, P>,
) -> Seq<CommandView<P>> {
    let joints = CommandView::FetchJointStates {
        body_id: s.body_id,
        joint_indices: s.joint_indices,
    };
    let links = if snapshot.joint_states.is_some() {
        pose_queries(s.body_id, snapshot, 0, frame_asked(s, snapshot))
    } else {
        Seq::empty()
    };
    seq![joints] + links + seq![frame_outcome(s, snapshot)]
}

/// Everything that a callback logs: the joint entries, then the velocity of
/// each link whose pose was resolved, if it has one. Nothing if the joint
/// states cannot be had.
pub open spec fn frame_logs<S, V, P>(s: AttachmentView<P>, snapshot: Snapshot<S, V, P>) -> Seq<
    LogEntryView<S, V>,
> {
    match snapshot.joint_states {
        Some(states) => joint_logs(s.prefix, states@) + snapshot.velocity_logs_between(
            s.prefix,
            0,
            frame_stop(s, snapshot),
        ),
        None => Seq::empty(),
    }
}

/// The state after a callback: between two frames again, with the frame index
/// one higher if the frame was emitted and unchanged if it was not.
pub open spec fn frame_state<S, V, P>(
    s: AttachmentView<P>,
    snapshot: Snapshot<S, V, P>,
) -> AttachmentView<P> {
    if frame_succeeds(s, snapshot) {
        s.idle(s.frame + 1)
    } else {
        s.idle(s.frame)
    }
}

/// What a callback comes to, said at once: its commands, its log entries and
/// the state it leaves.
pub open spec fn frame_run<S, V, P>(s: AttachmentView<P>, snapshot: Snapshot<S, V, P>) -> Run<
    S,
    V,
    P,
> {
    Run {
        state: frame_state(s, snapshot),
        logs: frame_logs(s, snapshot),
        commands: frame_commands(s, snapshot),
    }
}

} // verus!
