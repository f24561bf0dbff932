//! A terminal directory browser, split into a verified core and a thin
//! I/O shell. This crate is the core: the directory snapshot model, the
//! key-chord matcher, the navigation state machine and the frame layout
//! computed for each redraw. Reading the filesystem and driving the
//! terminal are left to the surrounding binary, which hands this crate
//! plain values and receives plain values back.

pub mod filer;
pub mod input;
pub mod navigate;
pub mod renderer;
