//! Decisions of a Discord bot that relays messages between Discord and a
//! Meshtastic radio network, written as verified state machines.
//!
//! The library never touches the network, the database or the radio: every
//! handler is a machine from a state and the answer to its last request to
//! the next state and the next request. The program around it carries the
//! requests out and hands the answers back.

pub mod decimal;
pub mod mesh;
pub mod text;
pub mod io;
pub mod index;
pub mod command;
pub mod relay;
pub mod config;
pub mod registry;
pub mod laws;
