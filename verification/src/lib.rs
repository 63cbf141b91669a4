//! Connection establishment and controller lifecycle for devices reached over a
//! device-bridge transport.
//!
//! The crate holds the decisions of a connection attempt and proves them; the
//! work on the device itself is done by the caller, one action at a time.
//!
//! * [`error`] and [`mode`]: the kinds of failure, and the choice between the
//!   real path and the mock.
//! * [`descriptor`]: what discovery reports about a device.
//! * [`config`]: how a device is to be driven, and the policy that picks it.
//! * [`status`]: the transport's completion codes, read by the framework.
//! * [`handshake`]: the construct, submit, await, bind sequence as a state
//!   machine from events to actions.
//! * [`registry`]: the single slot that holds the live controller.
//! * [`discovery`] and [`session`]: the two operations offered to callers.

pub mod error;
pub mod mode;
pub mod descriptor;
pub mod config;
pub mod status;
pub mod handshake;
pub mod registry;
pub mod discovery;
pub mod session;
