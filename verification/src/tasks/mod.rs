//! The logic of the tasks that serve the hardware.
pub mod buttons;
pub mod input_handlers;
pub mod leds;
pub mod midi;
