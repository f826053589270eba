//! Verified core of a UDP capture tool.
//!
//! The tool listens for UDP datagrams and writes each one to a file of its
//! own, named by the sender's address, the sender's port and the instant
//! of capture. This crate holds every rule of the tool and proves it: how
//! the command line is read, how a capture file is named, that names do
//! not collide, that the receive buffer loses nothing, and which errors
//! end the process. It performs no input or output. The program around it
//! does what a [`protocol::Request`] asks for and reports back with a
//! [`protocol::Event`].

pub mod config;
pub mod datagram;
pub mod decimal;
pub mod error;
pub mod naming;
pub mod protocol;
pub mod session;
