//! Verified provisioning engine for terminal-multiplexer workspaces.
//!
//! The engine never talks to the multiplexer itself. It decides which
//! operation has to be issued next ([`protocol::Action`]) and absorbs what the
//! multiplexer answered ([`protocol::Reply`]); a small driver outside this
//! crate executes the operations.
pub mod addressing;
pub mod arrange;
pub mod capture;
pub mod discovery;
pub mod laws;
pub mod protocol;
pub mod provision;
pub mod request;
pub mod topology;
