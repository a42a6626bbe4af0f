//! The decisions of a greeting service whose server stands behind a NAT, and
//! of the two clients that call it over HTTP/3.
//!
//! Sockets, QUIC and the asynchronous runtime stay outside.  What stands here
//! is what the programs compute and decide: the addresses they work with, the
//! configuration they hand to QUIC, and, for each of their tasks, a state
//! machine from event to next state and action.
pub mod addr;
pub mod client_task;
pub mod connection;
pub mod greeter;
pub mod program;
pub mod proxy_watch;
pub mod quic;
pub mod server_task;
pub mod setup;
pub mod supervisor;
pub mod target;
pub mod trace;
