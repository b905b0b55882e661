//! The logic of a sixteen channel fader controller: fader take-over, value
//! scaling, storage layout, MIDI handling, LED effects and the apps that run on
//! the channels.
use vstd::prelude::*;

pub mod app;
pub mod apps;
pub mod latch;
pub mod utils;
pub mod midi;
pub mod tasks;
pub mod storage;
pub mod stream;
pub mod tables;
pub mod types;

verus! {

} // verus!
