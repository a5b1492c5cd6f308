//! A terminal group-chat client library: line-editing state for the message
//! being composed, a bounded renderer for fetched history, and the session
//! state machine that drives the interactive loop. Terminal control, the
//! keyboard device and the remote chat gateway live outside the library and
//! are handed plain values.

pub mod config;
pub mod editor;
pub mod render;
pub mod session;
