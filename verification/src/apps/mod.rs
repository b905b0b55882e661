//! The apps that run on the channels.
//!
//! Each app is a state with one function per kind of event. A function takes what
//! the event brings and what it reads of the hardware, changes the state, and
//! returns what is done to the hardware.
pub mod ad;
pub mod clk_div;
pub mod clkturing;
pub mod control;
pub mod cv2midi;
pub mod cv2midinote;
pub mod euclid;
pub mod follower;
pub mod lfo;
pub mod lfo_plus;
pub mod midi2cv;
pub mod notefader;
pub mod panner;
pub mod parts;
pub mod quantizer;
pub mod rnd;
pub mod rnd_plus;
pub mod seq8;
pub mod tb3po;
