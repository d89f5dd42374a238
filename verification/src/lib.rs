//! Verified core of a lane-based falling-object arcade game together with the
//! deterministic oracle that recomputes the score from itemized collectible
//! counts and commits it to a fixed binary layout.
//!
//! The simulation works entirely over integers: elapsed time is kept in
//! milliseconds and geometry in milli-pixels (thousandths of a pixel), so that
//! every state transition has an exact, machine-checked contract.

pub mod difficulty;
pub mod entities;
pub mod game;
pub mod oracle;
pub mod rng;
