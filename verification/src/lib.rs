//! A small verified library around owned, heap-backed values: an owned text
//! value copied out of a string literal and consumed by move, and a growable
//! integer sequence whose explicit capacity never falls below its length.

pub mod sequence;
pub mod text;
