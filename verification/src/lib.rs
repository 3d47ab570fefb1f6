//! Session and protocol layer of a scanner front end: status codes, version
//! codes, option descriptors with their typed accessors, scan parameters, the
//! acquisition state machine and the assembly of raw bytes into an image.
//!
//! The device backend itself is not part of this crate. Every function here
//! works on plain values: what is to be handed to the backend, and what the
//! backend answered.

pub mod acquisition;
pub mod assemble;
pub mod handle;
pub mod options;
pub mod parameters;
pub mod status;
pub mod version;

pub use acquisition::{Acquisition, Phase, ReadReply};
pub use assemble::{assemble, Image};
pub use handle::{connection_name, option_count, Context, Device, Handle};
pub use options::{until_nul, Constraint, Descriptor, Info, Opt, Payload, Range, Request};
pub use parameters::{channel_count, Parameters};
pub use status::{checked, decimal_text, status_message, status_result, Error, Status};
pub use version::{
    Version, SANE_VERSION_BUILD, SANE_VERSION_CODE, SANE_VERSION_MAJOR, SANE_VERSION_MINOR,
};
