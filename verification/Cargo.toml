[package]
name = "robot_recorder"
version = "0.1.0"
edition = "2021"
publish = false

[dependencies]
anyhow = "=1.0.104"
nalgebra = "=0.34.2"
robot_behavior = "=0.5.0"
rsbullet = "=0.3.0"
