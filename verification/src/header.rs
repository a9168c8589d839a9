//! The file header: a 12- or 14-byte prefix giving the header length, the
//! protocol and profile versions, the declared size of the data section, and
//! a 4-byte magic signature. The 14-byte form appends a 2-byte header CRC.

use vstd::prelude::*;
use crate::codec::{le_uint, pow256};
use crate::error::FitError;

verus! {

/// Offset of the header-length byte.
pub const HEADER_FILE_SIZE_OFFSET: usize = 0;
/// Offset of the protocol version byte.
pub const HEADER_PROTOCOL_VERSION_OFFSET: usize = 1;
/// Offset of the low byte of the profile version.
pub const HEADER_PROFILE_VERSION_LSB_OFFSET: usize = 2;
/// Offset of the high byte of the profile version.
pub const HEADER_PROFILE_VERSION_MSB_OFFSET: usize = 3;
/// Offset of the least significant byte of the declared data size.
pub const HEADER_DATA_SIZE_LSB_OFFSET: usize = 4;
/// Offset of the second byte of the declared data size.
pub const HEADER_DATA_SIZE_1_OFFSET: usize = 5;
/// Offset of the third byte of the declared data size.
pub const HEADER_DATA_SIZE_2_OFFSET: usize = 6;
/// Offset of the most significant byte of the declared data size.
pub const HEADER_DATA_SIZE_MSB_OFFSET: usize = 7;
/// Offset of the first magic byte, '.'.
pub const HEADER_DATA_TYPE_0_OFFSET: usize = 8;
/// Offset of the second magic byte, 'F'.
pub const HEADER_DATA_TYPE_1_OFFSET: usize = 9;
/// Offset of the third magic byte, 'I'.
pub const HEADER_DATA_TYPE_2_OFFSET: usize = 10;
/// Offset of the fourth magic byte, 'T'.
pub const HEADER_DATA_TYPE_3_OFFSET: usize = 11;
/// Offset of the low CRC byte in the 14-byte header form.
pub const HEADER_CRC_1_OFFSET: usize = 12;
/// Offset of the high CRC byte in the 14-byte header form.
pub const HEADER_CRC_2_OFFSET: usize = 13;

/// The header length a stream declares: 14 when its first byte says so,
/// 12 otherwise.
pub open spec fn spec_header_len(data: Seq<u8>) -> int {
    if data.len() >= 1 && data[0] == 14 {
        14
    } else {
        12
    }
}

/// The header bytes at the front of a stream, or `TruncatedInput` when the
/// stream holds fewer bytes than the header needs.
pub open spec fn spec_read_header(data: Seq<u8>) -> Result<Seq<u8>, FitError> {
    if data.len() < spec_header_len(data) {
        Err(FitError::TruncatedInput)
    } else {
        Ok(data.take(spec_header_len(data)))
    }
}

/// Whether a header carries the magic signature ".FIT" at bytes 8 through 11.
pub open spec fn spec_header_valid(h: Seq<u8>) -> bool {
    &&& h.len() >= 12
    &&& h[8] == 46
    &&& h[9] == 70
    &&& h[10] == 73
    &&& h[11] == 84
}

/// The declared size of the data section: bytes 4 through 7 of the header
/// reassembled little-endian.
pub open spec fn spec_data_size(h: Seq<u8>) -> int {
    le_uint(h.subrange(4, 8))
}

/// Parses and validates the file header.
#[derive(Clone, Debug)]
pub struct FitHeader {
    /// The raw header bytes, 12 or 14 of them once read.
    pub header: Vec<u8>,
    /// The trailing CRC pair of the 14-byte header form.
    pub header_buf2: [u8; 2],
    /// Number of bytes in the header.
    pub header_len: u8,
}

impl FitHeader {
    /// An empty header, to be filled by `read`.
    pub fn new() -> (r: Self)
        ensures
            r.header@ == Seq::<u8>::empty(),
            r.header_len == 0,
    {
        let r = FitHeader { header: Vec::new(), header_buf2: [0u8, 0u8], header_len: 0 };
        r
    }

    /// Reads the file header from the front of the stream: the first 12
    /// bytes, and 2 more when the first byte declares the 14-byte form.
    /// Fails with `TruncatedInput` when fewer bytes are available, leaving
    /// the header unchanged.
    pub fn read(&mut self, data: &Vec<u8>) -> (r: Result<(), FitError>)
        ensures
            match spec_read_header(data@) {
                Ok(h) => {
                    &&& r is Ok
                    &&& final(self).header@ == h
                    &&& final(self).header_len == h.len()
                    &&& final(self).header_buf2 == old(self).header_buf2
                },
                Err(e) => r == Err::<(), FitError>(e) && *final(self) == *old(self),
            },
    {
        if data.len() < 12 {
            return Err(FitError::TruncatedInput);
        }
        let header_len: usize = if data[0] == 14 {
            14
        } else {
            12
        };
        if data.len() < header_len {
            return Err(FitError::TruncatedInput);
        }
        let mut header: Vec<u8> = Vec::new();
        let mut i: usize = 0;
        while i < header_len
            invariant
                i <= header_len,
                header_len <= data.len(),
                header@ == data@.take(i as int),
            decreases header_len - i,
        {
            header.push(data[i]);
            proof {
                assert(data@.take(i as int).push(data@[i as int]) =~= data@.take(i as int + 1));
            }
            i = i + 1;
        }
        self.header = header;
        self.header_len = header_len as u8;
        Ok(())
    }

    /// Whether the header carries the magic ".FIT" signature. Callers must
    /// see this return true before trusting `data_size`. Call after `read`.
    pub fn validate(&self) -> (r: bool)
        ensures
            r == spec_header_valid(self.header@),
    {
        if self.header.len() < 12 {
            return false;
        }
        let mut valid = self.header[HEADER_DATA_TYPE_0_OFFSET] == 46;
        valid = valid && self.header[HEADER_DATA_TYPE_1_OFFSET] == 70;
        valid = valid && self.header[HEADER_DATA_TYPE_2_OFFSET] == 73;
        valid = valid && self.header[HEADER_DATA_TYPE_3_OFFSET] == 84;
        valid
    }

    /// The declared data-section size: bytes 4 through 7 of the header
    /// reassembled little-endian. Call after `read`.
    pub fn data_size(&self) -> (r: u32)
        requires
            self.header@.len() >= 12,
        ensures
            r == spec_data_size(self.header@),
    {
        let r = crate::codec::read_uint(&self.header, 4, 4, false);
        proof {
            crate::codec::lemma_uint_bounds(self.header@.subrange(4, 8));
            assert(pow256(4) == 0x1_0000_0000) by {
                reveal_with_fuel(pow256, 5);
            }
        }
        r as u32
    }
}

} // verus!
