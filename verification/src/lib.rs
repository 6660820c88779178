//! Host-side endpoint for Wayland clients that run in a Linux guest.
//!
//! The crate holds the protocol engine: the wire codec, the per-connection
//! object graph with its interface handlers, the sideband frames that carry
//! pixels and input next to the Wayland stream, and the decisions of the
//! supervisor that owns the guest-side proxy process.

pub mod buf;
pub mod error;
pub mod frame;
pub mod input;
pub mod le;
pub mod protocol;
pub mod server;
pub mod wayland;

pub use error::WinWayError;
