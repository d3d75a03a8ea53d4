//! Session-bound request orchestration for a social platform's web endpoints.
//!
//! The library decides what to send and how to read what comes back; it never
//! touches the network itself. A caller starts a flow, performs the request it
//! is handed, and feeds the reply back until the flow is done.

pub mod cookie;
pub mod json;
pub mod text;
pub mod client;
pub mod session;
pub mod flows;
