//! Game logic of a small real-time strategy client: input state, error
//! chains, gui structure, actions, behaviours, path pools and draw batches.

pub mod text;
pub mod error;
pub mod inputs;
pub mod flags;
pub mod shapes;
pub mod world;
pub mod gui;
pub mod pathfinding;
pub mod actions;
pub mod behaviour;
pub mod random;
pub mod output;
pub mod assets;
