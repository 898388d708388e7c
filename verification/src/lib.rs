//! Recording of simulated robots: where a robot's description is found, under
//! which names its data is logged, and what a recorder attached to the
//! simulator's step queue asks, logs and emits in each frame.
//!
//! The library does no input or output. The host probes the file system,
//! queries the simulator and writes to the recording session; the library
//! tells it what to ask and what to log, and is told the answers.

pub mod builder;
pub mod channels;
pub mod frame;
pub mod host;
pub mod laws;
pub mod paths;
pub mod protocol;
pub mod robot;
pub mod text;

pub use builder::RerunRobotBuilder;
pub use host::RerunHost;
pub use robot::{Attachment, RerunRobot};
