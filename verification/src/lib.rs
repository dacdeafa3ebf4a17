//! The native side of a desktop shell: the commands the embedded UI may invoke
//! and the session state they share.

pub mod commands;
pub mod state;
