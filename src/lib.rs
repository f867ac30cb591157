//! Decision logic for autonomous worker creeps: task states, the per-creep state
//! machine, per-role decision ladders, body budgeting and the colony's spawn policy.
//!
//! The game world is read by the caller into plain snapshots ([`room::RoomView`],
//! [`room::AgentView`]); every decision here is a verified function of those values.

pub mod body;
pub mod machine;
pub mod manager;
pub mod memory;
pub mod roles;
pub mod room;
pub mod states;
pub mod tower;
pub mod utils;
