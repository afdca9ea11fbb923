//! Display and input core of a small kernel: bounded event queues fed by
//! interrupt handlers, a scrollable line buffer, a model of the display
//! device, and the virtual terminal multiplexer that ties them together.

pub mod events;
pub mod gui;
pub mod klog;
pub mod peripheral;
pub mod screenbuffer;
pub mod task;
pub mod term;
pub mod textbuffer;
pub mod vga;
pub mod writer;
