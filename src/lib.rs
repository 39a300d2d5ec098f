//! Plays an animated image in a terminal: each frame becomes a stream of
//! cursor-positioning and 24-bit background-colour sequences, two character
//! columns per pixel, and the area of a frame that asks to be restored to the
//! background is blanked before the next one is drawn.
use vstd::prelude::*;

pub mod escape;
pub mod render;
pub mod player;

verus! {

/// Delay between two frames, in milliseconds.
pub const FRAME_DELAY_MS: u64 = 75;

} // verus!
