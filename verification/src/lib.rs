//! Host-side core of a driver for HackRF One software-defined radios.
//!
//! The crate holds everything the driver decides and computes, and performs no
//! I/O of its own: control operations are built as request values and their
//! replies are decoded from completion values, and the two streaming engines
//! are step functions that say which bulk transfers to submit next.

pub mod commands;
pub mod common;
pub mod consts;
pub mod control;
pub mod device;
pub mod err;
pub mod internals;
pub mod laws;
pub mod model;
pub mod request;
pub mod sample;
pub mod sink;
pub mod stream;
pub mod ty;

pub use common::{BytesAsSamples, BytesIntoSamples, BytesToSamples, SamplesAsBytes};
pub use consts::{ENDPOINT_IN, ENDPOINT_OUT, TRANSFER_COUNT, TRANSFER_SIZE, VENDOR_ID};
pub use control::{Completion, ControlIn, ControlOut, ControlType, Recipient};
pub use device::Device;
pub use err::{Error, Result, TransferError};
pub use request::VendorRequest;
pub use sample::Sample;
pub use stream::Received;
pub use ty::{BoardId, BoardRev, TransceiverMode};
