//! WSPR beacon core: the Si5351 clock-generator register planner, crystal
//! calibration, the beacon scheduler and its supporting encoders, all as
//! verified logic over plain values. Bus traffic, timers and interrupts are
//! driven from outside through the plans and actions these modules return.

pub mod frequency;
pub mod calibrate;
pub mod text;
pub mod beacon;
pub mod si5351;
pub mod hw;
pub mod gen;
