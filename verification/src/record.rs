//! The per-record state machine. The first byte of each record says what
//! follows: bit 7 set marks a compressed-timestamp data record, otherwise
//! bit 6 distinguishes definition records from plain data records, bit 5
//! announces a developer-field section in a definition record, and bit 4 is
//! reserved and must be clear.

use vstd::prelude::*;
use crate::codec::{
    decode_field_value, read_uint, read_uint_trunc32, spec_field_value, spec_uint,
    lemma_uint_bounds, pow256,
};
use crate::error::FitError;
use crate::fields::{FieldDefinition, FieldDefinitionList, FitFieldValue, SpecFieldValue};
use crate::state::{FitState, SpecLocalDef, SpecState};
use vstd::arithmetic::div_mod::lemma_mod_mod;

verus! {

/// Record-header bit: set on a compressed-timestamp record.
pub const RECORD_HDR_NORMAL: u8 = 0x80;
/// Record-header bit: set on a definition record.
pub const RECORD_HDR_MSG_TYPE: u8 = 0x40;
/// Record-header bit: set when a definition record carries developer fields.
pub const RECORD_HDR_MSG_TYPE_SPECIFIC: u8 = 0x20;
/// Record-header bit: reserved, must be clear in normal headers.
pub const RECORD_HDR_RESERVED: u8 = 0x10;
/// Record-header mask for the local message type of a normal record.
pub const RECORD_HDR_LOCAL_MSG_TYPE: u8 = 0x0f;
/// Record-header mask for the local message type of a compressed-timestamp
/// record, stored in bits 5 and 6.
pub const RECORD_HDR_LOCAL_MSG_TYPE_COMPRESSED: u8 = 0x60;

/// Reserved field number for the message index, consumed by the decoder and
/// reported beside the fields rather than among them.
pub const FIELD_MSG_INDEX: u8 = 254;
/// Reserved field number for the timestamp, consumed by the decoder to
/// update the running timestamp.
pub const FIELD_TIMESTAMP: u8 = 253;
/// Reserved field number for the part index; passed through as an ordinary
/// field, since the format assigns it no behavior.
pub const FIELD_PART_INDEX: u8 = 250;

/// Seconds between the Unix epoch and the format's own epoch,
/// 1989-12-31T00:00:00Z.
pub const FIT_EPOCH_OFFSET: u32 = 631065600;

/// Mathematical model of one decoded message as handed to the caller.
#[verifier::ext_equal]
pub struct SpecMessage {
    pub timestamp: u32,
    pub global_msg_num: u16,
    pub local_msg_type: u8,
    pub message_index: u16,
    pub fields: Seq<SpecFieldValue>,
}

/// One decoded data record: the absolute timestamp (Unix seconds, zero when
/// no timestamp has been seen), the global message number and local message
/// type it was carried under, the message index when one was present, and
/// the decoded fields in declared order.
#[derive(Clone, Debug)]
pub struct FitMessage {
    /// Unix timestamp of the record, or zero when none is known yet.
    pub timestamp: u32,
    /// The global message number of the definition in force.
    pub global_msg_num: u16,
    /// The local message type slot the record used.
    pub local_msg_type: u8,
    /// The value of the reserved message-index field, or zero.
    pub message_index: u16,
    /// The decoded fields, in the definition's declared order, with the
    /// reserved timestamp and message-index fields left out.
    pub fields: Vec<FitFieldValue>,
}

/// The view of a field list, element by element.
pub open spec fn spec_fields_view(fields: Seq<FitFieldValue>) -> Seq<SpecFieldValue> {
    fields.map_values(|f: FitFieldValue| f@)
}

impl View for FitMessage {
    type V = SpecMessage;

    open spec fn view(&self) -> SpecMessage {
        SpecMessage {
            timestamp: self.timestamp,
            global_msg_num: self.global_msg_num,
            local_msg_type: self.local_msg_type,
            message_index: self.message_index,
            fields: spec_fields_view(self.fields@),
        }
    }
}

/// The local message type a record header names: bits 5 and 6 on a
/// compressed-timestamp record, bits 0 through 3 otherwise.
pub open spec fn spec_local_msg_type(header_byte: u8) -> u8 {
    if header_byte & RECORD_HDR_NORMAL != 0 {
        (header_byte & RECORD_HDR_LOCAL_MSG_TYPE_COMPRESSED) >> 5
    } else {
        header_byte & RECORD_HDR_LOCAL_MSG_TYPE
    }
}

/// The running timestamp after a compressed-timestamp header: the 5-bit
/// offset replaces the low bits of the running value, rolling the next
/// 32-second window over when the offset went backwards. The addition wraps
/// at 2^32 like the running timestamp itself.
pub open spec fn spec_compressed_ts(ts: u32, header_byte: u8) -> u32 {
    let offset = (header_byte & 0x1f) as int;
    let low = ts as int % 32;
    let base = ts as int - low;
    if offset >= low {
        ((base + offset) % 0x1_0000_0000) as u32
    } else {
        ((base + offset + 32) % 0x1_0000_0000) as u32
    }
}

/// The caller-facing timestamp: the format's epoch offset is added to a
/// nonzero running timestamp (wrapping at 2^32); zero stays zero, meaning no
/// timestamp has been seen.
pub open spec fn spec_display_ts(ts: u32) -> u32 {
    if ts > 0 {
        ((FIT_EPOCH_OFFSET + ts) % 0x1_0000_0000) as u32
    } else {
        0
    }
}

/// The field definition spelled out by the three bytes at `data[p..p+3]`:
/// field number, size, base type.
pub open spec fn spec_field_def_at(data: Seq<u8>, p: int, is_dev: bool) -> FieldDefinition {
    FieldDefinition {
        field_def: data[p],
        size: data[p + 1],
        base_type: data[p + 2],
        is_dev_field: is_dev,
    }
}

/// What a definition record does to the parse state: starting at
/// `st.bytes_read`, five fixed bytes (reserved, architecture, the global
/// message number in that architecture's endianness, the field count), then
/// three bytes per field; when the header's developer bit is set, one more
/// count byte and three bytes per developer field. The resulting layout
/// replaces whatever the local message type's slot held.
pub open spec fn spec_read_definition(
    data: Seq<u8>,
    header_byte: u8,
    st: SpecState,
) -> Result<SpecState, FitError> {
    let p = st.bytes_read;
    let local = (header_byte & RECORD_HDR_LOCAL_MSG_TYPE) as int;
    if p + 5 > data.len() {
        Err(FitError::TruncatedInput)
    } else {
        let is_big_endian = data[p + 1] == 1;
        let global = spec_uint(data.subrange(p + 2, p + 4), is_big_endian) as u16;
        let n = data[p + 4] as int;
        if p + 5 + 3 * n > data.len() {
            Err(FitError::TruncatedInput)
        } else {
            let base_fields = Seq::new(n as nat, |j: int| spec_field_def_at(data, p + 5 + 3 * j, false));
            if header_byte & RECORD_HDR_MSG_TYPE_SPECIFIC != 0 {
                let q = p + 5 + 3 * n;
                if q + 1 > data.len() {
                    Err(FitError::TruncatedInput)
                } else {
                    let m = data[q] as int;
                    if q + 1 + 3 * m > data.len() {
                        Err(FitError::TruncatedInput)
                    } else {
                        let dev_fields = Seq::new(
                            m as nat,
                            |j: int| spec_field_def_at(data, q + 1 + 3 * j, true),
                        );
                        Ok(SpecState {
                            defs: st.defs.update(
                                local,
                                Some(SpecLocalDef {
                                    global_msg_num: global,
                                    is_big_endian,
                                    fields: base_fields + dev_fields,
                                }),
                            ),
                            timestamp: st.timestamp,
                            bytes_read: q + 1 + 3 * m,
                        })
                    }
                }
            } else {
                Ok(SpecState {
                    defs: st.defs.update(
                        local,
                        Some(SpecLocalDef {
                            global_msg_num: global,
                            is_big_endian,
                            fields: base_fields,
                        }),
                    ),
                    timestamp: st.timestamp,
                    bytes_read: p + 5 + 3 * n,
                })
            }
        }
    }
}

/// Reads the fields of a data record from index `i` of the layout onward,
/// with `acc`, `ts` and `mi` carrying the fields decoded so far, the running
/// timestamp and the message index. Each field consumes exactly its declared
/// size. A field numbered with the reserved timestamp number updates the
/// running timestamp instead of being decoded; the reserved message-index
/// number updates the message index; both are assembled from all their
/// declared bytes and truncated. Every other field goes through the value
/// codec and is appended.
pub open spec fn spec_read_fields(
    data: Seq<u8>,
    defs: Seq<FieldDefinition>,
    i: int,
    pos: int,
    is_big_endian: bool,
    acc: Seq<SpecFieldValue>,
    ts: u32,
    mi: u16,
) -> Result<(Seq<SpecFieldValue>, u32, u16, int), FitError>
    decreases defs.len() - i,
{
    if i >= defs.len() {
        Ok((acc, ts, mi, pos))
    } else {
        let def = defs[i];
        let size = def.size as int;
        if pos + size > data.len() {
            Err(FitError::TruncatedInput)
        } else {
            let d = data.subrange(pos, pos + size);
            if def.field_def == FIELD_MSG_INDEX {
                spec_read_fields(
                    data, defs, i + 1, pos + size, is_big_endian, acc, ts,
                    (spec_uint(d, is_big_endian) % 0x10000) as u16,
                )
            } else if def.field_def == FIELD_TIMESTAMP {
                spec_read_fields(
                    data, defs, i + 1, pos + size, is_big_endian, acc,
                    (spec_uint(d, is_big_endian) % 0x1_0000_0000) as u32, mi,
                )
            } else {
                match spec_field_value(def.field_def, def.is_dev_field, def.base_type, d, is_big_endian) {
                    Err(e) => Err(e),
                    Ok(f) => spec_read_fields(
                        data, defs, i + 1, pos + size, is_big_endian, acc.push(f), ts, mi,
                    ),
                }
            }
        }
    }
}

/// A successful field read only moves the cursor forward, and never past the
/// end of the stream.
pub proof fn lemma_read_fields_pos(
    data: Seq<u8>,
    defs: Seq<FieldDefinition>,
    i: int,
    pos: int,
    is_big_endian: bool,
    acc: Seq<SpecFieldValue>,
    ts: u32,
    mi: u16,
)
    requires
        pos <= data.len(),
    ensures
        spec_read_fields(data, defs, i, pos, is_big_endian, acc, ts, mi) matches Ok(out)
            ==> pos <= out.3 <= data.len(),
    decreases defs.len() - i,
{
    if i < defs.len() {
        let def = defs[i];
        let size = def.size as int;
        if pos + size <= data.len() {
            let d = data.subrange(pos, pos + size);
            if def.field_def == FIELD_MSG_INDEX {
                lemma_read_fields_pos(
                    data, defs, i + 1, pos + size, is_big_endian, acc, ts,
                    (spec_uint(d, is_big_endian) % 0x10000) as u16,
                );
            } else if def.field_def == FIELD_TIMESTAMP {
                lemma_read_fields_pos(
                    data, defs, i + 1, pos + size, is_big_endian, acc,
                    (spec_uint(d, is_big_endian) % 0x1_0000_0000) as u32, mi,
                );
            } else {
                match spec_field_value(def.field_def, def.is_dev_field, def.base_type, d, is_big_endian) {
                    Err(_) => {},
                    Ok(f) => {
                        lemma_read_fields_pos(
                            data, defs, i + 1, pos + size, is_big_endian, acc.push(f), ts, mi,
                        );
                    },
                }
            }
        }
    }
}

/// What a data record does to the parse state, and the message it produces.
/// The record can only be read relative to the current definition of its
/// local message type: a missing definition is a hard error. On success the
/// running timestamp becomes whatever the record's timestamp field set it to
/// (or the value the compressed header already wrote), and the message
/// carries the caller-facing form of that timestamp.
pub open spec fn spec_read_data_message(
    data: Seq<u8>,
    header_byte: u8,
    st: SpecState,
) -> Result<(SpecState, SpecMessage), FitError> {
    let local = spec_local_msg_type(header_byte);
    match st.defs[local as int] {
        None => Err(FitError::UndefinedLocalMessageType),
        Some(def) => match spec_read_fields(
            data, def.fields, 0, st.bytes_read, def.is_big_endian, Seq::empty(), st.timestamp, 0,
        ) {
            Err(e) => Err(e),
            Ok((fields, ts, mi, pos)) => Ok((
                SpecState { defs: st.defs, timestamp: ts, bytes_read: pos },
                SpecMessage {
                    timestamp: spec_display_ts(ts),
                    global_msg_num: def.global_msg_num,
                    local_msg_type: local,
                    message_index: mi,
                    fields,
                },
            )),
        },
    }
}

/// What one whole record does to the parse state: the header byte is
/// consumed, then a compressed-timestamp header updates the running
/// timestamp and reads a data record with the local message type from its
/// own bits; a normal header must have the reserved bit clear and reads a
/// definition record or a plain data record.
pub open spec fn spec_read_record(
    data: Seq<u8>,
    st: SpecState,
) -> Result<(SpecState, Option<SpecMessage>), FitError> {
    if st.bytes_read + 1 > data.len() {
        Err(FitError::TruncatedInput)
    } else {
        let header_byte = data[st.bytes_read];
        let st1 = SpecState { defs: st.defs, timestamp: st.timestamp, bytes_read: st.bytes_read + 1 };
        if header_byte & RECORD_HDR_NORMAL != 0 {
            let st2 = SpecState {
                defs: st1.defs,
                timestamp: spec_compressed_ts(st1.timestamp, header_byte),
                bytes_read: st1.bytes_read,
            };
            match spec_read_data_message(data, header_byte, st2) {
                Err(e) => Err(e),
                Ok((s, m)) => Ok((s, Some(m))),
            }
        } else if header_byte & RECORD_HDR_RESERVED != 0 {
            Err(FitError::ReservedBitSet)
        } else if header_byte & RECORD_HDR_MSG_TYPE != 0 {
            match spec_read_definition(data, header_byte, st1) {
                Err(e) => Err(e),
                Ok(s) => Ok((s, None)),
            }
        } else {
            match spec_read_data_message(data, header_byte, st1) {
                Err(e) => Err(e),
                Ok((s, m)) => Ok((s, Some(m))),
            }
        }
    }
}

/// Copies `len` bytes at `data[start..]` into a fresh vector.
fn copy_range(data: &Vec<u8>, start: usize, len: usize) -> (r: Vec<u8>)
    requires
        start + len <= data.len(),
    ensures
        r@ == data@.subrange(start as int, start as int + len as int),
{
    let mut r: Vec<u8> = Vec::new();
    let mut i: usize = 0;
    while i < len
        invariant
            i <= len,
            start + len <= data.len(),
            r@ == data@.subrange(start as int, start as int + i as int),
        decreases len - i,
    {
        r.push(data[start + i]);
        proof {
            assert(data@.subrange(start as int, start as int + i as int).push(
                data@[start as int + i as int],
            ) =~= data@.subrange(start as int, start as int + i as int + 1));
        }
        i = i + 1;
    }
    r
}

/// Reads records one at a time. The only state a record keeps for itself is
/// its header byte; everything persistent lives in the `FitState`.
#[derive(Clone, Debug)]
pub struct FitRecord {
    /// The record's first byte, a bit field classifying the record.
    pub header_byte: u8,
}

impl FitRecord {
    /// A record reader with no header byte seen yet.
    pub fn new() -> (r: Self)
        ensures
            r.header_byte == 0,
    {
        FitRecord { header_byte: 0 }
    }

    /// Reads a definition record (its fixed five bytes, its field
    /// definitions, and its developer field definitions when announced) and
    /// installs the layout in the state. On any error the state is left
    /// unchanged.
    pub fn read_definition_message(&self, data: &Vec<u8>, state: &mut FitState) -> (r: Result<
        (),
        FitError,
    >)
        requires
            old(state)@.wf(),
            old(state)@.bytes_read <= data@.len(),
        ensures
            match spec_read_definition(data@, self.header_byte, old(state)@) {
                Ok(st2) => r is Ok && final(state)@ == st2,
                Err(e) => r == Err::<(), FitError>(e) && final(state)@ == old(state)@,
            },
            final(state)@.wf(),
            final(state)@.bytes_read <= data@.len(),
    {
        let pos = state.bytes_read;
        let local_msg_type = self.header_byte & RECORD_HDR_LOCAL_MSG_TYPE;
        proof {
            let hb = self.header_byte;
            assert(hb & 0x0f < 16) by (bit_vector);
        }
        if data.len() - pos < 5 {
            return Err(FitError::TruncatedInput);
        }
        let is_big_endian = data[pos + 1] == 1;
        let global_msg_num_64 = read_uint(data, pos + 2, 2, is_big_endian);
        proof {
            lemma_uint_bounds(data@.subrange(pos + 2, pos + 4));
            assert(pow256(2) == 0x10000) by {
                reveal_with_fuel(pow256, 3);
            }
        }
        let global_msg_num = global_msg_num_64 as u16;
        let num_fields = data[pos + 4] as usize;
        if (data.len() - pos - 5) / 3 < num_fields {
            return Err(FitError::TruncatedInput);
        }
        let mut field_defs: FieldDefinitionList = Vec::new();
        let base = pos + 5;
        let mut i: usize = 0;
        while i < num_fields
            invariant
                i <= num_fields,
                base + 3 * num_fields <= data.len(),
                field_defs@ == Seq::new(
                    i as nat,
                    |j: int| spec_field_def_at(data@, base as int + 3 * j, false),
                ),
            decreases num_fields - i,
        {
            let off = base + 3 * i;
            let fd = FieldDefinition {
                field_def: data[off],
                size: data[off + 1],
                base_type: data[off + 2],
                is_dev_field: false,
            };
            field_defs.push(fd);
            proof {
                assert(field_defs@ =~= Seq::new(
                    (i + 1) as nat,
                    |j: int| spec_field_def_at(data@, base as int + 3 * j, false),
                ));
            }
            i = i + 1;
        }
        let mut new_pos = base + 3 * num_fields;
        if self.header_byte & RECORD_HDR_MSG_TYPE_SPECIFIC != 0 {
            if data.len() == new_pos {
                return Err(FitError::TruncatedInput);
            }
            let num_dev_fields = data[new_pos] as usize;
            let dev_base = new_pos + 1;
            if (data.len() - dev_base) / 3 < num_dev_fields {
                return Err(FitError::TruncatedInput);
            }
            let ghost base_seq = field_defs@;
            let mut k: usize = 0;
            while k < num_dev_fields
                invariant
                    k <= num_dev_fields,
                    dev_base + 3 * num_dev_fields <= data.len(),
                    field_defs@ == base_seq + Seq::new(
                        k as nat,
                        |j: int| spec_field_def_at(data@, dev_base as int + 3 * j, true),
                    ),
                decreases num_dev_fields - k,
            {
                let off = dev_base + 3 * k;
                let fd = FieldDefinition {
                    field_def: data[off],
                    size: data[off + 1],
                    base_type: data[off + 2],
                    is_dev_field: true,
                };
                field_defs.push(fd);
                proof {
                    assert(field_defs@ =~= base_seq + Seq::new(
                        (k + 1) as nat,
                        |j: int| spec_field_def_at(data@, dev_base as int + 3 * j, true),
                    ));
                }
                k = k + 1;
            }
            new_pos = dev_base + 3 * num_dev_fields;
        }
        proof {
            let s = spec_read_definition(data@, self.header_byte, old(state)@);
            assert(s is Ok);
        }
        state.insert_local_msg_def(local_msg_type, is_big_endian, global_msg_num, field_defs);
        state.bytes_read = new_pos;
        proof {
            let s = spec_read_definition(data@, self.header_byte, old(state)@);
            assert(s matches Ok(st2) && final(state)@ =~= st2);
        }
        Ok(())
    }

    /// Reads a data record: resolves the definition in force for the local
    /// message type (a miss is a hard error), walks its field layout
    /// consuming each field's declared bytes, intercepts the reserved
    /// timestamp and message-index fields, and returns the decoded message.
    /// On any error the state is left unchanged and nothing is produced.
    #[verifier::loop_isolation(false)]
    pub fn read_data_message(&self, data: &Vec<u8>, state: &mut FitState) -> (r: Result<
        FitMessage,
        FitError,
    >)
        requires
            old(state)@.wf(),
            old(state)@.bytes_read <= data@.len(),
        ensures
            match spec_read_data_message(data@, self.header_byte, old(state)@) {
                Ok((st2, m)) => r matches Ok(msg) && msg@ == m && final(state)@ == st2,
                Err(e) => r == Err::<FitMessage, FitError>(e) && final(state)@ == old(state)@,
            },
            final(state)@.wf(),
            final(state)@.bytes_read <= data@.len(),
    {
        let local_msg_type: u8 = if self.header_byte & RECORD_HDR_NORMAL != 0 {
            (self.header_byte & RECORD_HDR_LOCAL_MSG_TYPE_COMPRESSED) >> 5
        } else {
            self.header_byte & RECORD_HDR_LOCAL_MSG_TYPE
        };
        proof {
            let hb = self.header_byte;
            assert((hb & 0x60) >> 5 < 16) by (bit_vector);
            assert(hb & 0x0f < 16) by (bit_vector);
        }
        let def = match state.retrieve_msg_def(local_msg_type) {
            None => {
                return Err(FitError::UndefinedLocalMessageType);
            },
            Some(d) => d,
        };
        let is_big_endian = def.is_big_endian;
        let n = def.fields.len();
        let ghost pos0 = state@.bytes_read;
        let ghost ts0 = state@.timestamp;
        let mut pos: usize = state.bytes_read;
        let mut new_timestamp: u32 = state.timestamp;
        let mut message_index: u16 = 0;
        let mut fields: Vec<FitFieldValue> = Vec::new();
        let mut i: usize = 0;
        proof {
            assert(spec_fields_view(fields@) =~= Seq::<SpecFieldValue>::empty());
        }
        while i < n
            invariant
                i <= n,
                n == def.fields@.len(),
                pos0 <= pos <= data@.len(),
                spec_read_fields(data@, def.fields@, 0, pos0, is_big_endian, Seq::empty(), ts0, 0)
                    == spec_read_fields(
                    data@,
                    def.fields@,
                    i as int,
                    pos as int,
                    is_big_endian,
                    spec_fields_view(fields@),
                    new_timestamp,
                    message_index,
                ),
            decreases n - i,
        {
            let fd = def.fields[i];
            let size = fd.size as usize;
            let ghost prev_acc = spec_fields_view(fields@);
            let ghost prev_ts = new_timestamp;
            let ghost prev_mi = message_index;
            let ghost prev_pos = pos as int;
            if data.len() - pos < size {
                proof {
                    assert(spec_read_fields(
                        data@,
                        def.fields@,
                        i as int,
                        prev_pos,
                        is_big_endian,
                        prev_acc,
                        prev_ts,
                        prev_mi,
                    ) == Err::<(Seq<SpecFieldValue>, u32, u16, int), FitError>(
                        FitError::TruncatedInput,
                    ));
                }
                return Err(FitError::TruncatedInput);
            }
            let ghost d = data@.subrange(pos as int, pos as int + size as int);
            if fd.field_def == FIELD_MSG_INDEX {
                let v = read_uint_trunc32(data, pos, size, is_big_endian);
                message_index = (v % 0x10000) as u16;
                proof {
                    lemma_mod_mod(spec_uint(d, is_big_endian), 0x10000, 0x10000);
                    assert(message_index == (spec_uint(d, is_big_endian) % 0x10000) as u16);
                    assert(spec_read_fields(
                        data@, def.fields@, i as int, prev_pos, is_big_endian,
                        prev_acc, prev_ts, prev_mi,
                    ) == spec_read_fields(
                        data@, def.fields@, i as int + 1, prev_pos + size as int, is_big_endian,
                        prev_acc, prev_ts, message_index,
                    ));
                }
            } else if fd.field_def == FIELD_TIMESTAMP {
                new_timestamp = read_uint_trunc32(data, pos, size, is_big_endian);
                proof {
                    assert(new_timestamp == (spec_uint(d, is_big_endian) % 0x1_0000_0000) as u32);
                    assert(spec_read_fields(
                        data@, def.fields@, i as int, prev_pos, is_big_endian,
                        prev_acc, prev_ts, prev_mi,
                    ) == spec_read_fields(
                        data@, def.fields@, i as int + 1, prev_pos + size as int, is_big_endian,
                        prev_acc, new_timestamp, prev_mi,
                    ));
                }
            } else {
                let field_bytes = copy_range(data, pos, size);
                match decode_field_value(
                    fd.field_def,
                    fd.is_dev_field,
                    fd.base_type,
                    &field_bytes,
                    is_big_endian,
                ) {
                    Err(e) => {
                        proof {
                            assert(spec_read_fields(
                                data@, def.fields@, i as int, prev_pos, is_big_endian,
                                prev_acc, prev_ts, prev_mi,
                            ) == Err::<(Seq<SpecFieldValue>, u32, u16, int), FitError>(e));
                        }
                        return Err(e);
                    },
                    Ok(f) => {
                        fields.push(f);
                        proof {
                            assert(spec_fields_view(fields@) =~= prev_acc.push(f@));
                            assert(spec_read_fields(
                                data@, def.fields@, i as int, prev_pos, is_big_endian,
                                prev_acc, prev_ts, prev_mi,
                            ) == spec_read_fields(
                                data@, def.fields@, i as int + 1, prev_pos + size as int,
                                is_big_endian, spec_fields_view(fields@), prev_ts, prev_mi,
                            ));
                        }
                    },
                }
            }
            pos = pos + size;
            i = i + 1;
        }
        let display_timestamp: u32 = if new_timestamp > 0 {
            let s: u64 = (FIT_EPOCH_OFFSET as u64) + (new_timestamp as u64);
            (s % 0x1_0000_0000) as u32
        } else {
            0
        };
        let msg = FitMessage {
            timestamp: display_timestamp,
            global_msg_num: def.global_msg_num,
            local_msg_type,
            message_index,
            fields,
        };
        state.timestamp = new_timestamp;
        state.bytes_read = pos;
        proof {
            let s = spec_read_data_message(data@, self.header_byte, old(state)@);
            assert(s matches Ok((st2, m)) && final(state)@ =~= st2 && msg@ =~= m);
        }
        Ok(msg)
    }

    /// Reads a compressed-timestamp record: applies the header's 5-bit time
    /// offset to the running timestamp, then reads the data fields that
    /// follow.
    pub fn read_compressed_timestamp_message(&self, data: &Vec<u8>, state: &mut FitState) -> (r:
        Result<FitMessage, FitError>)
        requires
            old(state)@.wf(),
            old(state)@.bytes_read <= data@.len(),
            self.header_byte & RECORD_HDR_NORMAL != 0,
        ensures
            ({
                let st1 = SpecState {
                    defs: old(state)@.defs,
                    timestamp: spec_compressed_ts(old(state)@.timestamp, self.header_byte),
                    bytes_read: old(state)@.bytes_read,
                };
                match spec_read_data_message(data@, self.header_byte, st1) {
                    Ok((st2, m)) => r matches Ok(msg) && msg@ == m && final(state)@ == st2,
                    Err(e) => r == Err::<FitMessage, FitError>(e) && final(state)@ == st1,
                }
            }),
            final(state)@.wf(),
            final(state)@.bytes_read <= data@.len(),
    {
        let time_offset: u32 = (self.header_byte & 0x1f) as u32;
        let low: u32 = state.timestamp % 32;
        let base: u32 = state.timestamp - low;
        if time_offset >= low {
            let s: u64 = (base as u64) + (time_offset as u64);
            state.timestamp = (s % 0x1_0000_0000) as u32;
        } else {
            let s: u64 = (base as u64) + (time_offset as u64) + 32;
            state.timestamp = (s % 0x1_0000_0000) as u32;
        }
        self.read_data_message(data, state)
    }

    /// Reads a normal record: the reserved bit must be clear, then bit 6
    /// sends the record to the definition or the data path.
    pub fn read_normal_message(&self, data: &Vec<u8>, state: &mut FitState) -> (r: Result<
        Option<FitMessage>,
        FitError,
    >)
        requires
            old(state)@.wf(),
            old(state)@.bytes_read <= data@.len(),
            self.header_byte & RECORD_HDR_NORMAL == 0,
        ensures
            ({
                let st0 = old(state)@;
                if self.header_byte & RECORD_HDR_RESERVED != 0 {
                    r == Err::<Option<FitMessage>, FitError>(FitError::ReservedBitSet)
                        && final(state)@ == st0
                } else if self.header_byte & RECORD_HDR_MSG_TYPE != 0 {
                    match spec_read_definition(data@, self.header_byte, st0) {
                        Ok(st2) => r matches Ok(om) && om is None && final(state)@ == st2,
                        Err(e) => r == Err::<Option<FitMessage>, FitError>(e) && final(state)@
                            == st0,
                    }
                } else {
                    match spec_read_data_message(data@, self.header_byte, st0) {
                        Ok((st2, m)) => r matches Ok(om) && om matches Some(msg) && msg@ == m
                            && final(state)@ == st2,
                        Err(e) => r == Err::<Option<FitMessage>, FitError>(e) && final(state)@
                            == st0,
                    }
                }
            }),
            final(state)@.wf(),
            final(state)@.bytes_read <= data@.len(),
    {
        if self.header_byte & RECORD_HDR_RESERVED != 0 {
            return Err(FitError::ReservedBitSet);
        }
        if self.header_byte & RECORD_HDR_MSG_TYPE != 0 {
            match self.read_definition_message(data, state) {
                Ok(()) => Ok(None),
                Err(e) => Err(e),
            }
        } else {
            match self.read_data_message(data, state) {
                Ok(msg) => Ok(Some(msg)),
                Err(e) => Err(e),
            }
        }
    }

    /// Reads the next record: consumes the header byte, then follows the
    /// compressed-timestamp or the normal path. On an error the state is the
    /// one the record loop must stop with; nothing of it is rolled back
    /// beyond the failing record.
    pub fn read(&mut self, data: &Vec<u8>, state: &mut FitState) -> (r: Result<
        Option<FitMessage>,
        FitError,
    >)
        requires
            old(state)@.wf(),
            old(state)@.bytes_read <= data@.len(),
        ensures
            match spec_read_record(data@, old(state)@) {
                Ok((st2, om_spec)) => {
                    &&& r matches Ok(om)
                    &&& final(state)@ == st2
                    &&& match om_spec {
                        Some(m) => r matches Ok(om) && om matches Some(msg) && msg@ == m,
                        None => r matches Ok(om) && om is None,
                    }
                },
                Err(e) => r == Err::<Option<FitMessage>, FitError>(e),
            },
            final(state)@.wf(),
            final(state)@.bytes_read <= data@.len(),
    {
        if data.len() == state.bytes_read {
            return Err(FitError::TruncatedInput);
        }
        self.header_byte = data[state.bytes_read];
        state.bytes_read = state.bytes_read + 1;
        if self.header_byte & RECORD_HDR_NORMAL != 0 {
            match self.read_compressed_timestamp_message(data, state) {
                Ok(msg) => Ok(Some(msg)),
                Err(e) => Err(e),
            }
        } else {
            self.read_normal_message(data, state)
        }
    }
}

/// A record that reads successfully always advances the cursor, by at least
/// its header byte, and never past the end of the stream.
pub proof fn lemma_read_record_advances(data: Seq<u8>, st: SpecState)
    requires
        st.bytes_read <= data.len(),
    ensures
        spec_read_record(data, st) matches Ok(out) ==> st.bytes_read < out.0.bytes_read
            <= data.len(),
{
    if st.bytes_read + 1 <= data.len() {
        let header_byte = data[st.bytes_read];
        let st1 = SpecState { defs: st.defs, timestamp: st.timestamp, bytes_read: st.bytes_read + 1 };
        if header_byte & RECORD_HDR_NORMAL != 0 {
            let st2 = SpecState {
                defs: st1.defs,
                timestamp: spec_compressed_ts(st1.timestamp, header_byte),
                bytes_read: st1.bytes_read,
            };
            lemma_read_data_message_pos(data, header_byte, st2);
        } else if header_byte & RECORD_HDR_RESERVED != 0 {
        } else if header_byte & RECORD_HDR_MSG_TYPE != 0 {
        } else {
            lemma_read_data_message_pos(data, header_byte, st1);
        }
    }
}

/// A data record that reads successfully never moves the cursor backwards or
/// past the end of the stream.
pub proof fn lemma_read_data_message_pos(data: Seq<u8>, header_byte: u8, st: SpecState)
    requires
        st.bytes_read <= data.len(),
    ensures
        spec_read_data_message(data, header_byte, st) matches Ok(out) ==> st.bytes_read
            <= out.0.bytes_read <= data.len(),
{
    let local = spec_local_msg_type(header_byte);
    match st.defs[local as int] {
        None => {},
        Some(def) => {
            lemma_read_fields_pos(
                data,
                def.fields,
                0,
                st.bytes_read,
                def.is_big_endian,
                Seq::empty(),
                st.timestamp,
                0,
            );
        },
    }
}

} // verus!
