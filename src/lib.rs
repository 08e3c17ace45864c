//! A grid-based snake game: its fixed-tick simulation, input buffering,
//! apple placement, collision rules and screen flow, with their contracts.

pub mod apple;
pub mod direction;
pub mod flow;
pub mod grid;
pub mod input;
pub mod laws;
pub mod logic;
pub mod session;
pub mod timer;
