//! Decision logic of a chat bot that hands out a role to members who react
//! to one chosen message with one chosen emoji, and takes it back when the
//! reaction is removed.
//!
//! The library holds no connection: the program around it receives gateway
//! events, turns them into [`reaction::ReactionEvent`] values, asks
//! [`handler`] what to do next, performs that action and reports back.

pub mod config;
pub mod reaction;
pub mod handler;
