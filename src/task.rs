//! The event streams that the cooperative tasks pull from, one per event kind.

pub mod keyboard;
pub mod mouse;
pub mod print;
pub mod term;
pub mod canvasgame;
