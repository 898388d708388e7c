use crate::frame::{
    callback, drive, frame_asked, frame_commands, frame_emission, frame_logs, frame_outcome,
    frame_poses, frame_run, frame_state, frame_stop, frame_succeeds, is_query, pose_queries, Run,
    Snapshot,
};
use crate::protocol::{
    engine_link_index, joint_logs, link_query, pose_map, step, velocity_logs, AttachmentView,
    CommandView, Event, FetchError, LinkPoseView, LogEntryView, Stage,
};
use vstd::prelude::*;

verus! {

/// The poses held in `s` are those that `snapshot` gives for the first links.
spec fn resolved_so_far<S, V, P>(s: AttachmentView<P>, snapshot: Snapshot<S, V, P>) -> bool {
    forall|i: int|
        0 <= i < s.poses.len() ==> snapshot.pose_at(i) == Some((#[trigger] s.poses[i]).pose)
}

/// The recorder `t` is in the middle of the frame that began in state `s`.
spec fn within_frame<S, V, P>(
    s: AttachmentView<P>,
    t: AttachmentView<P>,
    snapshot: Snapshot<S, V, P>,
) -> bool {
    &&& s.wf()
    &&& s.stage == Stage::Idle
    &&& t.wf()
    &&& t.prefix == s.prefix
    &&& t.links == s.links
    &&& t.body_id == s.body_id
    &&& t.joint_indices == s.joint_indices
    &&& t.frame == s.frame
    &&& resolved_so_far(t, snapshot)
}

/// What is left of a frame when the answer for the link at `position` comes
/// in: the velocity entries from `position` on, the queries for the links
/// after `position` and the outcome, and the final state.
spec fn remainder<S, V, P>(
    s: AttachmentView<P>,
    snapshot: Snapshot<S, V, P>,
    position: int,
) -> Run<S, V, P> {
    Run {
        state: frame_state(s, snapshot),
        logs: snapshot.velocity_logs_between(s.prefix, position, frame_stop(s, snapshot)),
        commands: pose_queries(s.body_id, snapshot, position + 1, frame_asked(s, snapshot))
            + seq![frame_outcome(s, snapshot)],
    }
}

proof fn lemma_resolved_from<S, V, P>(snapshot: Snapshot<S, V, P>, count: int, position: int)
    requires
        0 <= position <= count,
    ensures
        position <= snapshot.resolved_from(count, position) <= count,
        forall|i: int|
            position <= i < snapshot.resolved_from(count, position) ==> snapshot.pose_at(
                i,
            ).is_some(),
        snapshot.resolved_from(count, position) < count ==> snapshot.pose_at(
            snapshot.resolved_from(count, position),
        ).is_none(),
    decreases count - position,
{
    if position < count && snapshot.pose_at(position).is_some() {
        lemma_resolved_from(snapshot, count, position + 1);
    }
}

/// Resolution that has come as far as `position` stops where the whole
/// frame's resolution stops.
proof fn lemma_resolution_goes_on<S, V, P>(
    snapshot: Snapshot<S, V, P>,
    count: int,
    from: int,
    position: int,
)
    requires
        0 <= from <= position <= count,
        forall|i: int| from <= i < position ==> snapshot.pose_at(i).is_some(),
    ensures
        snapshot.resolved_from(count, from) == snapshot.resolved_from(count, position),
    decreases position - from,
{
    if from < position {
        lemma_resolution_goes_on(snapshot, count, from + 1, position);
    }
}

proof fn lemma_drive_links<S, V, P>(
    s: AttachmentView<P>,
    t: AttachmentView<P>,
    snapshot: Snapshot<S, V, P>,
    patience: nat,
)
    requires
        within_frame(s, t, snapshot),
        snapshot.joint_states.is_some(),
        t.stage == Stage::LinkState,
        patience + t.poses.len() >= t.links.len(),
    ensures
        drive(
            t,
            snapshot,
            Event::LinkState(snapshot.link_state(engine_link_index(t.poses.len() as int))),
            patience,
        ) == remainder(s, snapshot, t.poses.len() as int),
    decreases t.links.len() - t.poses.len(),
{
    let position = t.poses.len() as int;
    let count = t.links.len() as int;
    let event = Event::<S, V, P>::LinkState(snapshot.link_state(engine_link_index(position)));
    let (next, reaction) = step(t, event);
    assert forall|i: int| 0 <= i < position implies snapshot.pose_at(i).is_some() by {
        assert(snapshot.pose_at(i) == Some(t.poses[i].pose));
    }
    lemma_resolution_goes_on(snapshot, count, 0, position);
    lemma_resolved_from(snapshot, count, position);
    if snapshot.link_state(engine_link_index(position)).is_some() {
        lemma_resolved_from(snapshot, count, position + 1);
        if position + 1 >= count {
            assert(snapshot.velocity_logs_between(t.prefix, position + 1, count) =~= Seq::empty());
            assert(next.idle(t.frame) == t.idle(t.frame));
            assert(reaction.command->EmitFrame_poses =~= frame_poses(s, snapshot));
        } else {
            lemma_drive_links(s, next, snapshot, (patience - 1) as nat);
            let rest = drive(
                next,
                snapshot,
                snapshot.answer(reaction.command),
                (patience - 1) as nat,
            );
            assert(seq![reaction.command] + rest.commands =~= remainder(
                s,
                snapshot,
                position,
            ).commands);
        }
    }
}

proof fn lemma_drive_base_velocity<S, V, P>(
    s: AttachmentView<P>,
    t: AttachmentView<P>,
    snapshot: Snapshot<S, V, P>,
    patience: nat,
)
    requires
        within_frame(s, t, snapshot),
        snapshot.joint_states.is_some(),
        t.stage == Stage::BaseVelocity,
        patience >= t.links.len(),
    ensures
        drive(t, snapshot, Event::BaseVelocity(snapshot.base_velocity), patience) == remainder(
            s,
            snapshot,
            0,
        ),
{
    let count = t.links.len() as int;
    let event = Event::<S, V, P>::BaseVelocity(snapshot.base_velocity);
    let (next, reaction) = step(t, event);
    assert(snapshot.pose_at(0) == Some(t.poses[0].pose));
    lemma_resolved_from(snapshot, count, 1);
    if 1 >= count {
        assert(snapshot.velocity_logs_between(t.prefix, 1, count) =~= Seq::empty());
        assert(reaction.command->EmitFrame_poses =~= frame_poses(s, snapshot));
    } else {
        lemma_drive_links(s, next, snapshot, (patience - 1) as nat);
        let rest = drive(next, snapshot, snapshot.answer(reaction.command), (patience - 1) as nat);
        assert(seq![reaction.command] + rest.commands =~= remainder(s, snapshot, 0).commands);
    }
}

proof fn lemma_drive_base_pose<S, V, P>(
    s: AttachmentView<P>,
    t: AttachmentView<P>,
    snapshot: Snapshot<S, V, P>,
    patience: nat,
)
    requires
        within_frame(s, t, snapshot),
        snapshot.joint_states.is_some(),
        t.stage == Stage::BasePose,
        patience > t.links.len(),
    ensures
        ({
            let run = drive(t, snapshot, Event::BasePose(snapshot.base_pose), patience);
            &&& run.state == frame_state(s, snapshot)
            &&& run.logs == snapshot.velocity_logs_between(s.prefix, 0, frame_stop(s, snapshot))
            &&& seq![CommandView::<P>::FetchBasePose { body_id: s.body_id }] + run.commands
                == pose_queries(s.body_id, snapshot, 0, frame_asked(s, snapshot)) + seq![
                frame_outcome(s, snapshot),
            ]
        }),
{
    let event = Event::<S, V, P>::BasePose(snapshot.base_pose);
    let (next, reaction) = step(t, event);
    lemma_resolved_from(snapshot, t.links.len() as int, 0);
    if snapshot.base_pose.is_some() {
        lemma_drive_base_velocity(s, next, snapshot, (patience - 1) as nat);
        assert(drive(t, snapshot, event, patience).commands == seq![reaction.command] + drive(
            next,
            snapshot,
            snapshot.answer(reaction.command),
            (patience - 1) as nat,
        ).commands);
    } else {
        assert(pose_queries(s.body_id, snapshot, 1, 1) =~= Seq::<CommandView<P>>::empty());
    }
}

proof fn lemma_drive_joint_states<S, V, P>(
    s: AttachmentView<P>,
    t: AttachmentView<P>,
    snapshot: Snapshot<S, V, P>,
    patience: nat,
)
    requires
        within_frame(s, t, snapshot),
        t.stage == Stage::JointStates,
        patience > t.links.len() + 1,
    ensures
        ({
            let run = drive(t, snapshot, Event::JointStates(snapshot.joint_states), patience);
            &&& run.state == frame_state(s, snapshot)
            &&& run.logs == frame_logs(s, snapshot)
            &&& seq![
                CommandView::<P>::FetchJointStates {
                    body_id: s.body_id,
                    joint_indices: s.joint_indices,
                },
            ] + run.commands == frame_commands(s, snapshot)
        }),
{
    let event = Event::<S, V, P>::JointStates(snapshot.joint_states);
    let (next, reaction) = step(t, event);
    lemma_resolved_from(snapshot, t.links.len() as int, 0);
    if snapshot.joint_states.is_some() {
        if t.links.len() == 0 {
            assert(reaction.command->EmitFrame_poses =~= frame_poses(s, snapshot));
        } else {
            lemma_drive_base_pose(s, next, snapshot, (patience - 1) as nat);
            assert(drive(t, snapshot, event, patience).commands == seq![reaction.command] + drive(
                next,
                snapshot,
                snapshot.answer(reaction.command),
                (patience - 1) as nat,
            ).commands);
        }
    }
}

/// A callback on a recorder that stands between two frames comes to what the
/// frame is said to be: it gives the frame's commands, logs the frame's
/// entries and leaves the recorder between two frames again, ready for the
/// next callback.
pub proof fn law_callback<S, V, P>(s: AttachmentView<P>, snapshot: Snapshot<S, V, P>)
    requires
        s.wf(),
        s.stage == Stage::Idle,
    ensures
        callback(s, snapshot) == frame_run(s, snapshot),
        frame_state(s, snapshot).wf(),
        frame_state(s, snapshot).stage == Stage::Idle,
{
    let patience = s.links.len() + 3;
    let (next, reaction) = step(s, Event::<S, V, P>::Step);
    lemma_drive_joint_states(s, next, snapshot, (patience - 1) as nat);
    assert(callback(s, snapshot).commands == seq![reaction.command] + drive(
        next,
        snapshot,
        snapshot.answer(reaction.command),
        (patience - 1) as nat,
    ).commands);
}

proof fn lemma_pose_queries_are_queries<S, V, P>(
    body_id: i32,
    snapshot: Snapshot<S, V, P>,
    from: int,
    to: int,
    i: int,
)
    requires
        0 <= from,
        0 <= i < pose_queries(body_id, snapshot, from, to).len(),
    ensures
        is_query(pose_queries(body_id, snapshot, from, to)[i]),
    decreases to - from,
{
    if from < to {
        if from == 0 {
            let base: int = if snapshot.base_pose.is_some() {
                2
            } else {
                1
            };
            if i >= base {
                lemma_pose_queries_are_queries(body_id, snapshot, 1, to, i - base);
            }
        } else if i >= 1 {
            lemma_pose_queries_are_queries(body_id, snapshot, from + 1, to, i - 1);
        }
    }
}

/// A callback asks until it is done: every command but the last is a query,
/// and the last is the frame's outcome.
pub proof fn law_callback_ends_with_outcome<S, V, P>(
    s: AttachmentView<P>,
    snapshot: Snapshot<S, V, P>,
)
    requires
        s.wf(),
        s.stage == Stage::Idle,
    ensures
        ({
            let run = callback(s, snapshot);
            &&& run.commands.len() >= 2
            &&& run.commands.last() == frame_outcome(s, snapshot)
            &&& !is_query(run.commands.last())
            &&& forall|i: int|
                0 <= i < run.commands.len() - 1 ==> is_query(#[trigger] run.commands[i])
        }),
{
    law_callback(s, snapshot);
    let run = callback(s, snapshot);
    assert forall|i: int| 0 <= i < run.commands.len() - 1 implies is_query(
        #[trigger] run.commands[i],
    ) by {
        if i >= 1 {
            lemma_pose_queries_are_queries(
                s.body_id,
                snapshot,
                0,
                frame_asked(s, snapshot),
                i - 1,
            );
        }
    }
}

/// The frame index counts the emitted frames: a callback whose frame
/// succeeds gives exactly one `EmitFrame`, its last command, with the index
/// that the recorder held, and leaves the index one higher. A callback whose
/// frame fails gives no `EmitFrame` and leaves the index as it was.
pub proof fn law_frame_counter<S, V, P>(s: AttachmentView<P>, snapshot: Snapshot<S, V, P>)
    requires
        s.wf(),
        s.stage == Stage::Idle,
    ensures
        ({
            let run = callback(s, snapshot);
            let last = run.commands.len() - 1;
            &&& forall|i: int| 0 <= i < last ==> !(#[trigger] run.commands[i] is EmitFrame)
            &&& if frame_succeeds(s, snapshot) {
                &&& run.commands[last] == frame_emission(s, snapshot)
                &&& run.state.frame == s.frame + 1
            } else {
                &&& run.commands[last] is Abort
                &&& run.state.frame == s.frame
            }
        }),
{
    law_callback(s, snapshot);
    law_callback_ends_with_outcome(s, snapshot);
    lemma_resolved_from(snapshot, s.links.len() as int, 0);
    let run = callback(s, snapshot);
    assert forall|i: int| 0 <= i < run.commands.len() - 1 implies !(#[trigger] run.commands[i]
        is EmitFrame) by {
        assert(is_query(run.commands[i]));
    }
}

/// The link list decides which link a pose belongs to, and it never changes.
/// No event alters it. The pose that answers the base query is filed under
/// the first name of the list. The query sent while `n` poses are held, with
/// `n` at least 1, goes to the engine's link `n - 1`, and its answer is filed
/// under the name at position `n`: among the poses that the recorder holds,
/// or, if it was the last link's, in the frame that is emitted.
pub proof fn law_link_order<S, V, P>(s: AttachmentView<P>, event: Event<S, V, P>)
    requires
        s.wf(),
    ensures
        step(s, event).0.links == s.links,
        s.stage == Stage::LinkState ==> s.pending() == link_query::<P>(
            s.body_id,
            s.poses.len() as int,
        ) && s.pending()->FetchLinkState_link_index == s.poses.len() - 1,
        ({
            let (next, reaction) = step(s, event);
            let n = s.poses.len() as int;
            match (s.stage, event) {
                (Stage::BasePose, Event::BasePose(Some(pose))) => next.poses == seq![
                    LinkPoseView { link: s.links[0], pose },
                ],
                (Stage::LinkState, Event::LinkState(Some(state))) => {
                    let held = s.poses.push(
                        LinkPoseView { link: s.links[n], pose: state.world_link_frame },
                    );
                    if n + 1 < s.links.len() {
                        next.poses == held
                    } else {
                        reaction.command == (CommandView::EmitFrame {
                            frame: s.frame,
                            poses: held,
                            sequence: "realtime"@,
                            detach: false,
                        })
                    }
                },
                _ => true,
            }
        }),
{
}

/// In an emitted frame the entry at each position carries the name at that
/// position of the link list and the pose that the simulator gave for that
/// position: the base pose at position 0, and at each later position the
/// frame of the link whose engine index is one less. A callback leaves the
/// link list as it was.
pub proof fn law_frame_follows_link_order<S, V, P>(
    s: AttachmentView<P>,
    snapshot: Snapshot<S, V, P>,
)
    requires
        s.wf(),
        s.stage == Stage::Idle,
        frame_succeeds(s, snapshot),
    ensures
        callback(s, snapshot).state.links == s.links,
        callback(s, snapshot).commands.last() == frame_emission(s, snapshot),
        frame_poses(s, snapshot).len() == s.links.len(),
        forall|i: int|
            0 <= i < s.links.len() ==> (#[trigger] frame_poses(s, snapshot)[i]).link == s.links[i],
        forall|i: int|
            0 <= i < s.links.len() ==> snapshot.pose_at(i) == Some(
                (#[trigger] frame_poses(s, snapshot)[i]).pose,
            ),
{
    law_callback(s, snapshot);
    law_callback_ends_with_outcome(s, snapshot);
    lemma_resolved_from(snapshot, s.links.len() as int, 0);
    assert forall|i: int| 0 <= i < s.links.len() implies snapshot.pose_at(i) == Some(
        (#[trigger] frame_poses(s, snapshot)[i]).pose,
    ) by {
        assert(snapshot.pose_at(i).is_some());
    }
}

/// If the joint states cannot be had, the callback asks for nothing more,
/// logs nothing and ends with that error; no pose is kept.
pub proof fn law_joint_failure_logs_nothing<S, V, P>(
    s: AttachmentView<P>,
    snapshot: Snapshot<S, V, P>,
)
    requires
        s.wf(),
        s.stage == Stage::Idle,
        snapshot.joint_states.is_none(),
    ensures
        ({
            let run = callback(s, snapshot);
            &&& run.logs == Seq::<LogEntryView<S, V>>::empty()
            &&& run.commands == seq![
                CommandView::<P>::FetchJointStates {
                    body_id: s.body_id,
                    joint_indices: s.joint_indices,
                },
                CommandView::<P>::Abort { error: FetchError::JointStates },
            ]
            &&& run.state == s.idle(s.frame)
        }),
{
    law_callback(s, snapshot);
}

/// If the pose of a link other than the base cannot be had, while the joint
/// states and the poses of the links before it can, the callback ends with
/// that link's error: no frame is emitted, the poses resolved so far are
/// dropped and the frame index stays.
pub proof fn law_link_failure_aborts_frame<S, V, P>(
    s: AttachmentView<P>,
    snapshot: Snapshot<S, V, P>,
    position: int,
)
    requires
        s.wf(),
        s.stage == Stage::Idle,
        snapshot.joint_states.is_some(),
        1 <= position < s.links.len(),
        forall|i: int| 0 <= i < position ==> snapshot.pose_at(i).is_some(),
        snapshot.pose_at(position).is_none(),
    ensures
        ({
            let run = callback(s, snapshot);
            &&& forall|i: int|
                0 <= i < run.commands.len() ==> !(#[trigger] run.commands[i] is EmitFrame)
            &&& run.commands.last() == CommandView::<P>::Abort {
                error: FetchError::LinkState { link_index: engine_link_index(position) as i32 },
            }
            &&& run.state == s.idle(s.frame)
        }),
{
    law_callback(s, snapshot);
    law_callback_ends_with_outcome(s, snapshot);
    lemma_resolved_from(snapshot, s.links.len() as int, 0);
    assert(frame_stop(s, snapshot) == position);
    let run = callback(s, snapshot);
    assert forall|i: int| 0 <= i < run.commands.len() implies !(#[trigger] run.commands[i]
        is EmitFrame) by {
        if i < run.commands.len() - 1 {
            assert(is_query(run.commands[i]));
        }
    }
}

proof fn lemma_same_poses_same_stop<S, V, P>(
    a: Snapshot<S, V, P>,
    b: Snapshot<S, V, P>,
    count: int,
    position: int,
)
    requires
        forall|i: int| a.pose_at(i) == b.pose_at(i),
    ensures
        a.resolved_from(count, position) == b.resolved_from(count, position),
    decreases count - position,
{
    if position < count && a.pose_at(position).is_some() {
        lemma_same_poses_same_stop(a, b, count, position + 1);
    }
}

proof fn lemma_same_base_same_queries<S, V, P>(
    a: Snapshot<S, V, P>,
    b: Snapshot<S, V, P>,
    body_id: i32,
    from: int,
    to: int,
)
    requires
        a.base_pose == b.base_pose,
    ensures
        pose_queries(body_id, a, from, to) == pose_queries(body_id, b, from, to),
    decreases to - from,
{
    if from < to {
        if from == 0 {
            lemma_same_base_same_queries(a, b, body_id, 1, to);
        } else {
            lemma_same_base_same_queries(a, b, body_id, from + 1, to);
        }
    }
}

proof fn lemma_velocity_logs_agree<S, V, P>(
    a: Snapshot<S, V, P>,
    b: Snapshot<S, V, P>,
    prefix: Seq<char>,
    from: int,
    to: int,
)
    requires
        forall|i: int| from <= i < to ==> a.velocity_at(i) == b.velocity_at(i),
    ensures
        a.velocity_logs_between(prefix, from, to) == b.velocity_logs_between(prefix, from, to),
    decreases to - from,
{
    if from < to {
        lemma_velocity_logs_agree(a, b, prefix, from + 1, to);
    }
}

proof fn lemma_velocity_logs_split<S, V, P>(
    a: Snapshot<S, V, P>,
    prefix: Seq<char>,
    from: int,
    mid: int,
    to: int,
)
    requires
        from <= mid <= to,
    ensures
        a.velocity_logs_between(prefix, from, to) == a.velocity_logs_between(prefix, from, mid)
            + a.velocity_logs_between(prefix, mid, to),
    decreases mid - from,
{
    if from < mid {
        lemma_velocity_logs_split(a, prefix, from + 1, mid, to);
    }
}

/// A velocity that is missing costs the frame its own entry and nothing else.
/// Take from the simulator's answers the velocity of the link at `position`:
/// the callback gives the same commands and ends in the same state, and it
/// logs what it logged before, in the same order, but for that one entry.
pub proof fn law_missing_velocity_skips_one_entry<S, V, P>(
    s: AttachmentView<P>,
    snapshot: Snapshot<S, V, P>,
    position: int,
)
    requires
        s.wf(),
        s.stage == Stage::Idle,
        0 <= position,
    ensures
        ({
            let full = callback(s, snapshot);
            let bare = callback(s, snapshot.without_velocity_at(position));
            let stop = frame_stop(s, snapshot);
            &&& bare.state == full.state
            &&& bare.commands == full.commands
            &&& match snapshot.joint_states {
                Some(states) if position < stop => {
                    let before = joint_logs::<S, V>(s.prefix, states@)
                        + snapshot.velocity_logs_between(s.prefix, 0, position);
                    let after = snapshot.velocity_logs_between(s.prefix, position + 1, stop);
                    &&& full.logs == before + velocity_logs(
                        s.prefix,
                        snapshot.velocity_at(position),
                    ) + after
                    &&& bare.logs == before + after
                },
                _ => bare.logs == full.logs,
            }
        }),
{
    let other = snapshot.without_velocity_at(position);
    let count = s.links.len() as int;
    let stop = frame_stop(s, snapshot);
    law_callback(s, snapshot);
    law_callback(s, other);
    assert forall|i: int| snapshot.pose_at(i) == other.pose_at(i) by {
    }
    assert forall|i: int| i != position implies snapshot.velocity_at(i) == other.velocity_at(
        i,
    ) by {
    }
    lemma_same_poses_same_stop(snapshot, other, count, 0);
    lemma_same_base_same_queries(snapshot, other, s.body_id, 0, frame_asked(s, snapshot));
    lemma_resolved_from(snapshot, count, 0);
    assert(frame_poses(s, snapshot) =~= frame_poses(s, other));
    if position < stop {
        lemma_velocity_logs_split(snapshot, s.prefix, 0, position, stop);
        lemma_velocity_logs_split(other, s.prefix, 0, position, stop);
        lemma_velocity_logs_agree(snapshot, other, s.prefix, 0, position);
        lemma_velocity_logs_agree(snapshot, other, s.prefix, position + 1, stop);
    } else {
        lemma_velocity_logs_agree(snapshot, other, s.prefix, 0, stop);
    }
}

proof fn lemma_pose_map_holds<P>(poses: Seq<LinkPoseView<P>>, i: int)
    requires
        0 <= i < poses.len(),
    ensures
        pose_map(poses).dom().contains(poses[i].link),
    decreases poses.len(),
{
    if i < poses.len() - 1 {
        lemma_pose_map_holds(poses.drop_last(), i);
    }
}

proof fn lemma_pose_map_key<P>(poses: Seq<LinkPoseView<P>>, name: Seq<char>) -> (i: int)
    requires
        pose_map(poses).dom().contains(name),
    ensures
        0 <= i < poses.len(),
        poses[i].link == name,
    decreases poses.len(),
{
    if poses.len() == 0 {
        0
    } else if poses.last().link == name {
        poses.len() - 1
    } else {
        lemma_pose_map_key(poses.drop_last(), name)
    }
}

proof fn lemma_pose_map_last<P>(poses: Seq<LinkPoseView<P>>, i: int)
    requires
        0 <= i < poses.len(),
        forall|j: int| i < j < poses.len() ==> (#[trigger] poses[j]).link != poses[i].link,
    ensures
        pose_map(poses)[poses[i].link] == poses[i].pose,
    decreases poses.len(),
{
    if i < poses.len() - 1 {
        let front = poses.drop_last();
        assert forall|j: int| i < j < front.len() implies (#[trigger] front[j]).link
            != front[i].link by {
        }
        lemma_pose_map_last(front, i);
    }
}

/// The pose map of an emitted frame is complete: its keys are the names of
/// the link list, all of them and no other, and under each name stands the
/// pose of the last link of that name.
pub proof fn law_pose_map_is_complete<S, V, P>(s: AttachmentView<P>, snapshot: Snapshot<S, V, P>)
    requires
        s.wf(),
        s.stage == Stage::Idle,
        frame_succeeds(s, snapshot),
    ensures
        ({
            let poses = frame_poses(s, snapshot);
            &&& callback(s, snapshot).commands.last() == frame_emission(s, snapshot)
            &&& forall|name: Seq<char>|
                pose_map(poses).dom().contains(name) <==> s.links.contains(name)
            &&& forall|i: int|
                0 <= i < s.links.len() && (forall|j: int|
                    i < j < s.links.len() ==> s.links[j] != s.links[i]) ==> Some(
                    pose_map(poses)[#[trigger] s.links[i]],
                ) == snapshot.pose_at(i)
        }),
{
    let poses = frame_poses(s, snapshot);
    law_callback(s, snapshot);
    law_callback_ends_with_outcome(s, snapshot);
    lemma_resolved_from(snapshot, s.links.len() as int, 0);
    assert forall|name: Seq<char>|
        pose_map(poses).dom().contains(name) <==> s.links.contains(name) by {
        if pose_map(poses).dom().contains(name) {
            lemma_pose_map_key(poses, name);
        }
        if s.links.contains(name) {
            let i = choose|i: int| 0 <= i < s.links.len() && s.links[i] == name;
            lemma_pose_map_holds(poses, i);
        }
    }
    assert forall|i: int|
        0 <= i < s.links.len() && (forall|j: int|
            i < j < s.links.len() ==> s.links[j] != s.links[i]) implies Some(
        pose_map(poses)[#[trigger] s.links[i]],
    ) == snapshot.pose_at(i) by {
        assert forall|j: int| i < j < poses.len() implies (#[trigger] poses[j]).link
            != poses[i].link by {
        }
        lemma_pose_map_last(poses, i);
    }
}

} // verus!
