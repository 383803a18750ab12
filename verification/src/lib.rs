//! Native-window bootstrap core: desktop-environment detection, decoration
//! policy, the Wayland session state machine, and the surface-backend handle
//! abstraction handed to a renderer.
//!
//! The display-server connection, the dispatch loop and all other platform
//! I/O live outside this crate; everything here is pure logic over plain
//! values, stated and proved.

pub mod common;
pub mod desktop;
pub mod policy;
pub mod session;
pub mod backend;
pub mod theme;
