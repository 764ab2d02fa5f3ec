//! Remote control of desktop windows through a device-like interface.
//!
//! The crate holds the protocol core: message framing, the command and
//! response contract, the server's dispatch rules and device registry, the
//! per-connection session machine and the client's request exchange. All
//! input and output is left to the caller, who feeds bytes and results in and
//! performs the actions that come out.

pub mod cli;
pub mod client;
pub mod codec;
pub mod controller;
pub mod device;
pub mod dispatch;
pub mod error;
pub mod host;
pub mod invocation;
pub mod protocol;
pub mod registry;
pub mod server;
pub mod session;
pub mod text;
pub mod types;

pub use client::{Client, RemoteDevice};
pub use controller::WindowController;
pub use device::Device;
pub use error::PdbError;
pub use server::Server;
pub use protocol::{Command, MessageHeader, Response, DEFAULT_PORT, PROTOCOL_VERSION};
pub use types::{KeyCode, Point, Rect, Screenshot, WindowInfo};
