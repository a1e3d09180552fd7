//! A minimal rendering host: the frame loop that drives a render state from
//! window events and recovers from presentation failures, and the loader
//! that turns what a backend fetched into resource bytes or text.

pub mod event;
pub mod frame_loop;
pub mod state;
pub mod surface;
