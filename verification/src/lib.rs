//! Driver logic for the PMSx003 family of particulate-matter sensors.
//!
//! The sensor talks over a serial link in fixed binary frames. This crate holds
//! everything that is decided on the way: how a command frame is laid out, how
//! the start of a frame is found again in a running byte stream, when a frame
//! is intact, what its fields are, and in what order a command and its
//! acknowledgement follow one another. It never touches the link itself:
//! [`PmsX003Sensor`] hands out the transport work to do as an
//! [`sensor::Action`] and takes what came of it as an [`sensor::Event`].

pub mod checksum;
pub mod command;
pub mod error;
pub mod frame;
pub mod replay;
pub mod resync;
pub mod sensor;

pub use command::{MN1, MN2};
pub use error::Error;
pub use frame::OutputFrame;
pub use sensor::PmsX003Sensor;
