//! The condition primitives that rule expressions call, and the D-Bus
//! plumbing the desktop-facing ones share.

pub mod dbus;
pub mod ssh;
pub mod mpris;
pub mod power;
pub mod process;
pub mod signal;
pub mod stub;
