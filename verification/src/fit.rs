//! The top-level decoder: reads and validates the header, derives the byte
//! budget from the declared data size, and drives the record reader until
//! the budget is reached or a record fails. Also holds the table-driven
//! 16-bit checksum that the format trails its files with; the checksum is
//! advisory and its verification never retracts delivered messages.

use vstd::prelude::*;
use crate::error::FitError;
use crate::header::{FitHeader, spec_data_size, spec_header_len, spec_header_valid, spec_read_header};
use crate::record::{FitMessage, FitRecord, SpecMessage, lemma_read_record_advances, spec_read_record};
use crate::state::{FitState, SpecState};

verus! {

/// The view of a message list, element by element.
pub open spec fn spec_msgs_view(msgs: Seq<FitMessage>) -> Seq<SpecMessage> {
    msgs.map_values(|m: FitMessage| m@)
}

/// The nibble table of the format's CRC-16 variant.
pub open spec fn spec_crc16_table(i: int) -> u16 {
    if i == 0 {
        0x0000
    } else if i == 1 {
        0xCC01
    } else if i == 2 {
        0xD801
    } else if i == 3 {
        0x1400
    } else if i == 4 {
        0xF001
    } else if i == 5 {
        0x3C00
    } else if i == 6 {
        0x2800
    } else if i == 7 {
        0xE401
    } else if i == 8 {
        0xA001
    } else if i == 9 {
        0x6C00
    } else if i == 10 {
        0x7800
    } else if i == 11 {
        0xB401
    } else if i == 12 {
        0x5000
    } else if i == 13 {
        0x9C01
    } else if i == 14 {
        0x8801
    } else {
        0x4400
    }
}

/// One step of the running checksum: folds one byte in, low nibble first.
pub open spec fn spec_crc16_step(crc: u16, byte: u8) -> u16 {
    let tmp1 = spec_crc16_table((crc & 0xf) as int);
    let crc1 = ((crc >> 4) & 0x0fff) ^ tmp1 ^ spec_crc16_table((byte & 0xf) as int);
    let tmp2 = spec_crc16_table((crc1 & 0xf) as int);
    ((crc1 >> 4) & 0x0fff) ^ tmp2 ^ spec_crc16_table(((byte >> 4) & 0xf) as int)
}

/// The checksum of a byte sequence, starting from zero.
pub open spec fn spec_crc16(s: Seq<u8>) -> u16
    decreases s.len(),
{
    if s.len() == 0 {
        0
    } else {
        spec_crc16_step(spec_crc16(s.drop_last()), s.last())
    }
}

fn crc16_table_lookup(i: u8) -> (r: u16)
    requires
        i < 16,
    ensures
        r == spec_crc16_table(i as int),
{
    if i == 0 {
        0x0000
    } else if i == 1 {
        0xCC01
    } else if i == 2 {
        0xD801
    } else if i == 3 {
        0x1400
    } else if i == 4 {
        0xF001
    } else if i == 5 {
        0x3C00
    } else if i == 6 {
        0x2800
    } else if i == 7 {
        0xE401
    } else if i == 8 {
        0xA001
    } else if i == 9 {
        0x6C00
    } else if i == 10 {
        0x7800
    } else if i == 11 {
        0xB401
    } else if i == 12 {
        0x5000
    } else if i == 13 {
        0x9C01
    } else if i == 14 {
        0x8801
    } else {
        0x4400
    }
}

/// The checksum of the bytes `data[start..end]`, starting from zero. The
/// format stores this value, computed over everything between the header and
/// the trailer, as the little-endian trailing pair; comparing is the
/// caller's choice, and a mismatch need not discard decoded messages.
pub fn compute_crc(data: &Vec<u8>, start: usize, end: usize) -> (r: u16)
    requires
        start <= end <= data.len(),
    ensures
        r == spec_crc16(data@.subrange(start as int, end as int)),
{
    let mut crc: u16 = 0;
    let mut i: usize = start;
    while i < end
        invariant
            start <= i <= end,
            end <= data.len(),
            crc == spec_crc16(data@.subrange(start as int, i as int)),
        decreases end - i,
    {
        let ghost before = data@.subrange(start as int, i as int);
        let b = data[i];
        proof {
            let hb = crc;
            let bb = b;
            assert(hb & 0xf < 16) by (bit_vector);
            assert(bb & 0xf < 16) by (bit_vector);
            assert((bb >> 4) & 0xf < 16) by (bit_vector);
        }
        let tmp1 = crc16_table_lookup((crc & 0xf) as u8);
        let crc1 = ((crc >> 4) & 0x0fff) ^ tmp1 ^ crc16_table_lookup(b & 0xf);
        proof {
            let c1 = crc1;
            assert(c1 & 0xf < 16) by (bit_vector);
        }
        let tmp2 = crc16_table_lookup((crc1 & 0xf) as u8);
        crc = ((crc1 >> 4) & 0x0fff) ^ tmp2 ^ crc16_table_lookup((b >> 4) & 0xf);
        proof {
            assert(data@.subrange(start as int, i as int + 1).drop_last() =~= before);
        }
        i = i + 1;
    }
    crc
}

/// The region of the stream the record loop may consume: everything from
/// the start of the stream to the end of the declared data section, the
/// 2-byte trailing checksum excluded. Cursor positions are counted from the
/// start of the stream, header included.
pub open spec fn spec_budget(data: Seq<u8>) -> int {
    spec_header_len(data) + spec_data_size(data.take(spec_header_len(data))) - 2
}

/// The messages the record loop produces from `st` on, and how it ends:
/// reading stops without error once the cursor has reached the budget, and
/// stops with the first record's error otherwise. Messages decoded before a
/// failing record are kept.
pub open spec fn spec_decode_records(data: Seq<u8>, st: SpecState, budget: int) -> (
    Seq<SpecMessage>,
    Option<FitError>,
)
    decreases data.len() - st.bytes_read,
{
    if st.bytes_read >= budget {
        (Seq::empty(), None)
    } else {
        match spec_read_record(data, st) {
            Err(e) => (Seq::empty(), Some(e)),
            Ok((st2, om)) => {
                proof {
                    if st.bytes_read + 1 <= data.len() {
                        lemma_read_record_advances(data, st);
                    }
                }
                let (rest, err) = spec_decode_records(data, st2, budget);
                (
                    match om {
                        Some(m) => seq![m] + rest,
                        None => rest,
                    },
                    err,
                )
            },
        }
    }
}

/// Decodes a whole stream.
#[derive(Clone, Debug)]
pub struct Fit {
    /// The file header, filled in by `read`.
    pub header: FitHeader,
}

impl Fit {
    /// A decoder with an empty header.
    pub fn new() -> (r: Self)
        ensures
            r.header.header@ == Seq::<u8>::empty(),
            r.header.header_len == 0,
    {
        Fit { header: FitHeader::new() }
    }

    /// One step of the running checksum: folds one byte into `crc`, low
    /// nibble first, per the format's 16-entry nibble table.
    pub fn check_crc(&self, crc: u16, byte: u8) -> (r: u16)
        ensures
            r == spec_crc16_step(crc, byte),
    {
        proof {
            let hb = crc;
            let bb = byte;
            assert(hb & 0xf < 16) by (bit_vector);
            assert(bb & 0xf < 16) by (bit_vector);
            assert((bb >> 4) & 0xf < 16) by (bit_vector);
        }
        let tmp1 = crc16_table_lookup((crc & 0xf) as u8);
        let crc1 = ((crc >> 4) & 0x0fff) ^ tmp1 ^ crc16_table_lookup(byte & 0xf);
        proof {
            let c1 = crc1;
            assert(c1 & 0xf < 16) by (bit_vector);
        }
        let tmp2 = crc16_table_lookup((crc1 & 0xf) as u8);
        ((crc1 >> 4) & 0x0fff) ^ tmp2 ^ crc16_table_lookup((byte >> 4) & 0xf)
    }

    /// Decodes the stream in `data`: reads and validates the header, then
    /// reads records while the bytes consumed stay below the budget the
    /// header declares, appending each decoded message to `messages` in
    /// stream order. The first failure stops the loop and is returned;
    /// messages already appended stay. A header that cannot be read or
    /// whose magic does not match is fatal before any record is read.
    #[verifier::loop_isolation(false)]
    pub fn read(&mut self, data: &Vec<u8>, messages: &mut Vec<FitMessage>) -> (r: Result<
        (),
        FitError,
    >)
        ensures
            match spec_read_header(data@) {
                Err(e) => {
                    &&& r == Err::<(), FitError>(e)
                    &&& final(messages)@ == old(messages)@
                    &&& *final(self) == *old(self)
                },
                Ok(h) => {
                    &&& final(self).header.header@ == h
                    &&& if !spec_header_valid(h) {
                        r == Err::<(), FitError>(FitError::InvalidHeader) && final(messages)@
                            == old(messages)@
                    } else {
                        let (msgs, err) = spec_decode_records(
                            data@,
                            SpecState::initial(h.len() as int),
                            spec_budget(data@),
                        );
                        &&& spec_msgs_view(final(messages)@) == spec_msgs_view(old(messages)@)
                            + msgs
                        &&& match err {
                            None => r is Ok,
                            Some(e) => r == Err::<(), FitError>(e),
                        }
                    }
                },
            },
    {
        match self.header.read(data) {
            Err(e) => {
                return Err(e);
            },
            Ok(()) => {},
        }
        if !self.header.validate() {
            return Err(FitError::InvalidHeader);
        }
        let mut state = FitState::new();
        let header_len = self.header.header_len as usize;
        state.bytes_read = header_len;
        proof {
            assert(state@ =~= SpecState::initial(header_len as int));
        }
        let data_size = self.header.data_size();
        let bytes_to_read: u64 = header_len as u64 + data_size as u64 - 2;
        proof {
            assert(self.header.header@.subrange(4, 8) =~= data@.take(
                spec_header_len(data@),
            ).subrange(4, 8));
            assert(bytes_to_read as int == spec_budget(data@));
        }
        let ghost st0 = state@;
        let ghost budget = spec_budget(data@);
        let ghost old_len = old(messages)@.len() as int;
        while (state.bytes_read as u64) < bytes_to_read
            invariant
                state@.wf(),
                state@.bytes_read <= data@.len(),
                messages@.len() >= old_len,
                messages@.take(old_len) == old(messages)@,
                ({
                    let full = spec_decode_records(data@, st0, budget);
                    let cur = spec_decode_records(data@, state@, budget);
                    &&& full.0 == spec_msgs_view(messages@.skip(old_len)) + cur.0
                    &&& full.1 == cur.1
                }),
            decreases data@.len() - state@.bytes_read,
        {
            let ghost st_before = state@;
            let ghost msgs_before = messages@;
            let mut record = FitRecord::new();
            let result = record.read(data, &mut state);
            proof {
                lemma_read_record_advances(data@, st_before);
            }
            match result {
                Ok(om) => {
                    match om {
                        Some(msg) => {
                            messages.push(msg);
                            proof {
                                assert(messages@.take(old_len) =~= msgs_before.take(old_len));
                                assert(spec_msgs_view(messages@.skip(old_len)) =~= spec_msgs_view(
                                    msgs_before.skip(old_len),
                                ).push(msg@));
                                let cur_before = spec_decode_records(data@, st_before, budget);
                                let cur_now = spec_decode_records(data@, state@, budget);
                                assert(cur_before.0 =~= seq![msg@] + cur_now.0);
                                assert(spec_msgs_view(msgs_before.skip(old_len)) + cur_before.0
                                    =~= spec_msgs_view(messages@.skip(old_len)) + cur_now.0);
                            }
                        },
                        None => {},
                    }
                },
                Err(e) => {
                    proof {
                        let cur_before = spec_decode_records(data@, st_before, budget);
                        assert(cur_before.1 == Some(e));
                        assert(cur_before.0 =~= Seq::<SpecMessage>::empty());
                        assert(spec_msgs_view(messages@.skip(old_len)) + cur_before.0
                            =~= spec_msgs_view(messages@.skip(old_len)));
                    }
                    return Err(e);
                },
            }
        }
        proof {
            let cur = spec_decode_records(data@, state@, budget);
            assert(cur.0 =~= Seq::<SpecMessage>::empty());
            assert(spec_msgs_view(messages@.skip(old_len)) + cur.0 =~= spec_msgs_view(
                messages@.skip(old_len),
            ));
            assert(spec_msgs_view(messages@) =~= spec_msgs_view(messages@.take(old_len))
                + spec_msgs_view(messages@.skip(old_len)));
        }
        Ok(())
    }
}

/// Decodes a whole stream in one call: the decoder with its header, and
/// every message of the stream, in order. Any failure, a partial stream
/// included, is returned as the error the decode stopped with.
pub fn read(data: &Vec<u8>) -> (r: Result<(Fit, Vec<FitMessage>), FitError>)
    ensures
        match spec_read_header(data@) {
            Err(e) => r == Err::<(Fit, Vec<FitMessage>), FitError>(e),
            Ok(h) => {
                if !spec_header_valid(h) {
                    r == Err::<(Fit, Vec<FitMessage>), FitError>(FitError::InvalidHeader)
                } else {
                    let (msgs, err) = spec_decode_records(
                        data@,
                        SpecState::initial(h.len() as int),
                        spec_budget(data@),
                    );
                    match err {
                        None => r matches Ok((fit, out)) && fit.header.header@ == h
                            && spec_msgs_view(out@) == msgs,
                        Some(e) => r == Err::<(Fit, Vec<FitMessage>), FitError>(e),
                    }
                }
            },
        },
{
    let mut fit = Fit::new();
    let mut messages: Vec<FitMessage> = Vec::new();
    match fit.read(data, &mut messages) {
        Ok(()) => {
            proof {
                assert(spec_msgs_view(Seq::<FitMessage>::empty()) =~= Seq::<SpecMessage>::empty());
            }
            Ok((fit, messages))
        },
        Err(e) => Err(e),
    }
}

} // verus!
