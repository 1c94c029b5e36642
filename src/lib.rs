//! Decision logic of a desktop toy that drops gear models into a transparent
//! window: when dropping starts, and when the next gear falls.

pub mod timer;
pub mod state;
pub mod dropper;
