//! The beacon: calibration policy, configuration, scheduler state and the
//! encoders it needs to put a station on the air.

pub mod calibration;
pub mod status;
pub mod states;
pub mod logging;
pub mod events;
pub mod config;
pub mod qth;
pub mod scheduler;
pub mod transmit;
pub mod frame;
