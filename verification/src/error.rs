use vstd::prelude::*;

verus! {

/// The ways a decode can fail. Every one of these is fatal for the record
/// loop: record boundaries can only be inferred by correctly decoding every
/// preceding record, so once a record is misparsed the byte alignment of the
/// rest of the stream is unrecoverable.
#[derive(Clone, Copy, Debug, PartialEq, Eq, Structural)]
pub enum FitError {
    /// Fewer bytes were available than a fixed-size read required.
    TruncatedInput,
    /// The file header's magic bytes did not match the expected signature.
    InvalidHeader,
    /// A data record referenced a local message type for which no definition
    /// record had been seen in this stream.
    UndefinedLocalMessageType,
    /// A field declared a base-type tag the codec does not know how to size
    /// or interpret; the tag is carried along.
    UnsupportedBaseType(u8),
    /// A normal record header had its reserved bit set.
    ReservedBitSet,
}

} // verus!
