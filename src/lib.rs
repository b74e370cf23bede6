//! A client for a registrar's RPC interface that manages DNS records.
//!
//! The library holds the parts of the client that decide: the error kinds,
//! the parameter maps of calls and responses, the session state machine with
//! its record operations, and the run of one command (log in, one record
//! operation, log out) down to the process exit code. Sending and receiving
//! bytes is left to the caller, which hands each outcome back in.
pub mod error;
pub mod rpc;
pub mod session;
pub mod decimal;
pub mod run;
