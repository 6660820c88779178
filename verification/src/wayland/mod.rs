//! The Wayland protocol engine, one module per interface family.

pub mod client;
pub mod compositor;
pub mod display;
pub mod model;
pub mod object;
pub mod registry;
pub mod shm;
pub mod wire;
pub mod xdg_shell;
