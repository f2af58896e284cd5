//! Interactive control over a machine's power-management subsystem.
//!
//! The verified core of the crate is the synchronization actor in [`daemon`]:
//! a state machine that serializes access to a system-bus gateway, translates
//! between the volatile wire representation and a stable domain model, and
//! fans state changes out to observers as broadcast events. The surrounding
//! terminal front end (rendering, input capture, the async event loop that
//! drives the actor) lives outside the library and consumes these types.

pub mod app;
pub mod daemon;
pub mod error;
pub mod header_art;
pub mod widgets;
