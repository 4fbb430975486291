//! A character walking on a plane, modelled as plain data.
//!
//! Lengths are held in tenths of a world unit, so that every dimension of the
//! scene is an exact integer. Colour fractions are held in hundredths.

pub mod geometry;
pub mod world;
pub mod movement;
pub mod scene;
