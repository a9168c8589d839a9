//! Decoder for the FIT binary activity-file format.
//!
//! A FIT file is a byte stream made of a 12- or 14-byte header, an
//! interleaved sequence of definition records (which describe the wire layout
//! of later data records) and data records (raw field bytes laid out per the
//! most recent definition for their local message type), and a trailing
//! 16-bit checksum. The decoder walks that stream, maintains the per-stream
//! definition table and running timestamp, and produces one decoded message
//! per data record, in stream order.

pub mod codec;
pub mod error;
pub mod fields;
pub mod fit;
pub mod header;
pub mod laws;
pub mod messages;
pub mod names;
pub mod profile;
pub mod record;
pub mod state;

pub use error::FitError;
