//! A minimal full-screen text viewer: a queued terminal output model, a line
//! store, a viewport renderer and the caret / quit state machine that drives
//! them. Everything that talks to the operating system stays with the caller,
//! which hands plain values in and writes the queued frames out.
pub mod buffer;
pub mod editor;
pub mod terminal;
pub mod view;
