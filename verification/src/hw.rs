//! Hardware-facing support that holds decisions rather than registers.

pub mod display;
