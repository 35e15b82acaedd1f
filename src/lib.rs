//! An animated city skyline for the terminal: procedural generation of the
//! scene, the per-tick update rules and the layout of each frame, with their
//! contracts proved.

pub mod palette;
pub mod random;
pub mod entities;
pub mod generate;
pub mod update;
pub mod paint;
pub mod scene;
