//! A terminal snake game's verified core: toroidal grid geometry, a
//! bounded occupancy tracker answering O(1) membership over a sliding
//! window of cells, the actor that moves over the grid, and the
//! tick-driven state machine that turns commands and clock ticks into
//! state transitions and render instructions.

pub mod geometry;
pub mod history;
pub mod rng;
pub mod snake;
pub mod state;
