use robot_recorder::channels::{
    cartesian_velocity_channel, joint_channel, joint_velocity_channel, namespace, torque_channel,
};
use robot_recorder::text::{concatenate, push_decimal};

fn decimal(n: usize) -> String {
    let mut out = String::new();
    push_decimal(&mut out, n);
    out
}

#[test]
fn namespace_is_the_name_under_world_robots() {
    assert_eq!(namespace("arm"), "world/robots/arm");
    assert_eq!(namespace(""), "world/robots/");
    assert_eq!(namespace("left/arm 2"), "world/robots/left/arm 2");
}

#[test]
fn joint_channels_carry_the_joint_number() {
    assert_eq!(joint_channel("world/robots/arm", 0), "world/robots/arm/joint/0");
    assert_eq!(joint_velocity_channel("world/robots/arm", 0), "world/robots/arm/joint_vel/0");
    assert_eq!(torque_channel("world/robots/arm", 0), "world/robots/arm/torque/0");
    assert_eq!(joint_channel("world/robots/arm", 12), "world/robots/arm/joint/12");
    assert_eq!(joint_velocity_channel("p", 7), "p/joint_vel/7");
    assert_eq!(torque_channel("p", 305), "p/torque/305");
}

#[test]
fn cartesian_velocity_has_one_channel() {
    assert_eq!(cartesian_velocity_channel("world/robots/arm"), "world/robots/arm/cartesian_vel");
    assert_eq!(cartesian_velocity_channel(""), "/cartesian_vel");
}

#[test]
fn decimal_writes_zero_as_one_digit() {
    assert_eq!(decimal(0), "0");
}

#[test]
fn decimal_writes_each_digit() {
    assert_eq!(decimal(1234567890), "1234567890");
    assert_eq!(decimal(9), "9");
    assert_eq!(decimal(10), "10");
    assert_eq!(decimal(99), "99");
    assert_eq!(decimal(100), "100");
    assert_eq!(decimal(4096), "4096");
}

#[test]
fn decimal_agrees_with_the_standard_notation() {
    for n in [0usize, 5, 10, 11, 19, 20, 101, 1000, 65535, 4294967295, usize::MAX] {
        assert_eq!(decimal(n), n.to_string());
    }
}

#[test]
fn push_decimal_appends_to_what_is_there() {
    let mut out = String::from("joint/");
    push_decimal(&mut out, 42);
    assert_eq!(out, "joint/42");
}

#[test]
fn concat_puts_the_second_after_the_first() {
    assert_eq!(concatenate("world/", "robots"), "world/robots");
    assert_eq!(concatenate("", "x"), "x");
    assert_eq!(concatenate("x", ""), "x");
}
