use crate::text::{concatenate, decimal, push_decimal};
use vstd::prelude::*;
use vstd::string::*;

verus! {

/// The namespace under which everything recorded for the robot instance
/// `name` is filed.
pub open spec fn namespace_of(name: Seq<char>) -> Seq<char> {
    "world/robots/"@ + name
}

/// The channel of the position of the tracked joint number `joint`.
pub open spec fn joint_channel_of(prefix: Seq<char>, joint: nat) -> Seq<char> {
    prefix + "/joint/"@ + decimal(joint)
}

/// The channel of the velocity of the tracked joint number `joint`.
pub open spec fn joint_velocity_channel_of(prefix: Seq<char>, joint: nat) -> Seq<char> {
    prefix + "/joint_vel/"@ + decimal(joint)
}

/// The channel of the motor torque of the tracked joint number `joint`.
pub open spec fn torque_channel_of(prefix: Seq<char>, joint: nat) -> Seq<char> {
    prefix + "/torque/"@ + decimal(joint)
}

/// The one channel that takes every cartesian velocity of a robot.
pub open spec fn cartesian_velocity_channel_of(prefix: Seq<char>) -> Seq<char> {
    prefix + "/cartesian_vel"@
}

/// Builds the namespace of a robot instance.
pub fn namespace(name: &str) -> (path: String)
    ensures
        path@ == namespace_of(name@),
{
    concatenate("world/robots/", name)
}

/// `prefix`, then `infix`, then the decimal notation of `number`.
fn numbered(prefix: &str, infix: &str, number: usize) -> (path: String)
    ensures
        path@ == prefix@ + infix@ + decimal(number as nat),
{
    let mut path = concatenate(prefix, infix);
    push_decimal(&mut path, number);
    path
}

/// Builds the channel of a joint's position.
pub fn joint_channel(prefix: &str, joint: usize) -> (path: String)
    ensures
        path@ == joint_channel_of(prefix@, joint as nat),
{
    numbered(prefix, "/joint/", joint)
}

/// Builds the channel of a joint's velocity.
pub fn joint_velocity_channel(prefix: &str, joint: usize) -> (path: String)
    ensures
        path@ == joint_velocity_channel_of(prefix@, joint as nat),
{
    numbered(prefix, "/joint_vel/", joint)
}

/// Builds the channel of a joint's motor torque.
pub fn torque_channel(prefix: &str, joint: usize) -> (path: String)
    ensures
        path@ == torque_channel_of(prefix@, joint as nat),
{
    numbered(prefix, "/torque/", joint)
}

/// Builds the channel of the cartesian velocities.
pub fn cartesian_velocity_channel(prefix: &str) -> (path: String)
    ensures
        path@ == cartesian_velocity_channel_of(prefix@),
{
    concatenate(prefix, "/cartesian_vel")
}

} // verus!
