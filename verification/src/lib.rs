//! Secure remote execution of a single administrative command.
//!
//! The crate models the two security-relevant subsystems of such a server:
//! the mutual-authentication guard that decides whether a connecting peer may
//! submit any request at all, and the command-dispatch engine that turns an
//! authorized request into a supervised subprocess execution with captured
//! output, a bounded lifetime and a typed result.
//!
//! All decision logic lives here and is verified.  Everything that touches
//! the operating system — the RPC transport, certificate file parsing, and
//! the subprocess itself — stays outside; callers observe the child process
//! and feed the observations back in as plain events.

pub mod auth;
pub mod descriptor;
pub mod engine;
pub mod greeter;
pub mod options;
pub mod policy;
pub mod service;
pub mod singleton;
