//! Core logic of a small audio-control appliance: debounced controls, level
//! classification with peak hold, the device state machine and the
//! shift-register output protocol.

pub mod bus;
pub mod controls;
pub mod debounce;
pub mod display;
pub mod leds;
pub mod level;
pub mod meter;
pub mod pattern;
pub mod shift;
pub mod state;
pub mod time;
