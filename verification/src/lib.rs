//! Core logic of a desktop client for browsing a streaming platform's catalog:
//! the request bridge between the render loop and background network tasks,
//! the platform-client decision rules, the view state machine, the local
//! OAuth-callback route table, and the player launch command.

pub mod app;
pub mod bridge;
pub mod player;
pub mod server;
pub mod twitch;

use vstd::prelude::*;

verus! {

} // verus!
