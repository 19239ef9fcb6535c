//! Command execution tunnelled through an SSH agent channel.
//!
//! A host that was reached over SSH with agent forwarding holds a connection
//! back to the agent of the host it was reached from. This library turns
//! that connection into a way to run a command on the far side: a client
//! sends requests inside an agent extension, and an agent that understands
//! the extension starts the command, streams its output back and reports
//! its exit code, while passing every other request on to the real agent.
//!
//! The library holds the protocol and the decisions, and leaves reading,
//! writing and the child process to whoever uses it:
//!
//! - [`ssh_agent`]: messages, the extension envelope, the frame codec;
//! - [`rpc`]: the requests and events of the extension;
//! - [`connection`], with [`router`] and [`reply_queue`]: where each request
//!   of a client goes, and the order in which the replies leave;
//! - [`session`]: the agent side of one execution;
//! - [`driver`]: the client side of one execution;
//! - [`buffer`]: what is taken on trust of the `bytes` crate.

pub mod buffer;
pub mod connection;
pub mod driver;
pub mod reply_queue;
pub mod router;
pub mod rpc;
pub mod session;
pub mod ssh_agent;
