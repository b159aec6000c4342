//! Verified core of a two-process robot simulator: the binary wire protocol
//! between console and robots, the robot's paused/running controller, the
//! once-per-cycle output cache of behavior nodes, the robot's side queue for
//! out-of-order replies, and the console's registry of live robots.
use vstd::prelude::*;

pub mod behavior;
pub mod color;
pub mod comms;
pub mod controller;
pub mod messages;
pub mod registry;
pub mod robot_comm;

verus! {

} // verus!
