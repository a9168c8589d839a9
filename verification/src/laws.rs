//! Properties of the decoder that hold for every input, each proved once and
//! for all: how the header determines validity and size, that definition
//! records replace rather than merge, how the compressed timestamp rolls
//! over, that reserved fields never reach the caller, that an undefined
//! local message type fails fast, and that the byte budget ends the record
//! loop.

use vstd::prelude::*;
use vstd::arithmetic::div_mod::lemma_small_mod;
use crate::codec::{lemma_le_uint_4, spec_field_value};
use crate::error::FitError;
use crate::fields::{FieldDefinition, SpecFieldValue};
use crate::fit::spec_decode_records;
use crate::header::{spec_data_size, spec_header_valid};
use crate::record::{
    spec_compressed_ts, spec_display_ts, spec_local_msg_type, spec_read_data_message,
    spec_read_fields, spec_read_record, SpecMessage, FIELD_MSG_INDEX, FIELD_TIMESTAMP,
};
use crate::state::{SpecLocalDef, SpecState};

verus! {

/// Header round trip: any 12- or 14-byte header carrying the magic signature
/// validates, and its declared data size is exactly the four size bytes
/// reassembled little-endian, whichever length variant it uses.
pub proof fn lemma_header_round_trip(h: Seq<u8>)
    requires
        h.len() == 12 || h.len() == 14,
        h[8] == 46,
        h[9] == 70,
        h[10] == 73,
        h[11] == 84,
    ensures
        spec_header_valid(h),
        spec_data_size(h) == h[4] + 0x100 * h[5] + 0x10000 * h[6] + 0x1000000 * h[7],
{
    lemma_le_uint_4(h.subrange(4, 8));
}

/// Definition overwrite: installing a second definition for a local message
/// type fully replaces the first. The definition table, and with it the
/// decoding of any later data record for that slot, is exactly what the
/// second insert alone would have produced; nothing of the first remains.
pub proof fn lemma_definition_overwrite(
    st: SpecState,
    local: int,
    d1: SpecLocalDef,
    d2: SpecLocalDef,
    data: Seq<u8>,
    header_byte: u8,
)
    requires
        0 <= local < st.defs.len(),
    ensures
        st.defs.update(local, Some(d1)).update(local, Some(d2)) == st.defs.update(
            local,
            Some(d2),
        ),
        ({
            let twice = SpecState {
                defs: st.defs.update(local, Some(d1)).update(local, Some(d2)),
                timestamp: st.timestamp,
                bytes_read: st.bytes_read,
            };
            let once = SpecState {
                defs: st.defs.update(local, Some(d2)),
                timestamp: st.timestamp,
                bytes_read: st.bytes_read,
            };
            spec_read_data_message(data, header_byte, twice) == spec_read_data_message(
                data,
                header_byte,
                once,
            )
        }),
{
    assert(st.defs.update(local, Some(d1)).update(local, Some(d2)) =~= st.defs.update(
        local,
        Some(d2),
    ));
}

/// Compressed-timestamp rollover: when the 5-bit offset is smaller than the
/// low five bits of the running timestamp, the decoder rolls into the next
/// 32-second window, adding 32 beyond the offset.
pub proof fn lemma_compressed_rollover(ts: u32, header_byte: u8)
    requires
        ((header_byte & 0x1f) as int) < (ts as int) % 32,
        (ts as int) - (ts as int) % 32 + (header_byte & 0x1f) + 32 <= u32::MAX,
    ensures
        spec_compressed_ts(ts, header_byte) == (ts & 0xffff_ffe0) + (header_byte & 0x1f) + 32,
{
    assert(ts & 0xffff_ffe0 == ts - (ts % 32)) by (bit_vector);
    let v = ts as int - ts as int % 32 + (header_byte & 0x1f) + 32;
    lemma_small_mod(v as nat, 0x1_0000_0000);
}

/// A decoded field value keeps the field number of its definition.
proof fn lemma_field_value_keeps_number(
    field_def: u8,
    is_dev: bool,
    base_type: u8,
    d: Seq<u8>,
    is_big_endian: bool,
)
    ensures
        spec_field_value(field_def, is_dev, base_type, d, is_big_endian) matches Ok(f)
            ==> f.field_def == field_def,
{
}

/// Reserved-field interception, at the field-list level: decoding a field
/// list never appends a field numbered with the reserved timestamp or
/// message-index number, whatever layout the definition declared.
pub proof fn lemma_reserved_fields_intercepted(
    data: Seq<u8>,
    defs: Seq<FieldDefinition>,
    i: int,
    pos: int,
    is_big_endian: bool,
    acc: Seq<SpecFieldValue>,
    ts: u32,
    mi: u16,
)
    requires
        forall|j: int|
            0 <= j < acc.len() ==> acc[j].field_def != FIELD_TIMESTAMP && acc[j].field_def
                != FIELD_MSG_INDEX,
    ensures
        spec_read_fields(data, defs, i, pos, is_big_endian, acc, ts, mi) matches Ok(out)
            ==> forall|j: int|
                0 <= j < out.0.len() ==> out.0[j].field_def != FIELD_TIMESTAMP
                    && out.0[j].field_def != FIELD_MSG_INDEX,
    decreases defs.len() - i,
{
    if i < defs.len() {
        let def = defs[i];
        let size = def.size as int;
        if pos + size <= data.len() {
            let d = data.subrange(pos, pos + size);
            if def.field_def == FIELD_MSG_INDEX {
                lemma_reserved_fields_intercepted(
                    data, defs, i + 1, pos + size, is_big_endian, acc, ts,
                    (crate::codec::spec_uint(d, is_big_endian) % 0x10000) as u16,
                );
            } else if def.field_def == FIELD_TIMESTAMP {
                lemma_reserved_fields_intercepted(
                    data, defs, i + 1, pos + size, is_big_endian, acc,
                    (crate::codec::spec_uint(d, is_big_endian) % 0x1_0000_0000) as u32, mi,
                );
            } else {
                match spec_field_value(def.field_def, def.is_dev_field, def.base_type, d, is_big_endian) {
                    Err(_) => {},
                    Ok(f) => {
                        lemma_field_value_keeps_number(
                            def.field_def, def.is_dev_field, def.base_type, d, is_big_endian,
                        );
                        lemma_reserved_fields_intercepted(
                            data, defs, i + 1, pos + size, is_big_endian, acc.push(f), ts, mi,
                        );
                    },
                }
            }
        }
    }
}

/// Reserved-field interception, at the message level: a field tagged with
/// the reserved timestamp number never appears among a decoded message's
/// fields, and the timestamp the message reports is the caller-facing form
/// of the running timestamp the record left behind — the value every
/// subsequent compressed-timestamp record starts from.
pub proof fn lemma_reserved_fields_never_emitted(data: Seq<u8>, header_byte: u8, st: SpecState)
    ensures
        spec_read_data_message(data, header_byte, st) matches Ok((st2, m)) ==> {
            &&& forall|j: int|
                0 <= j < m.fields.len() ==> m.fields[j].field_def != FIELD_TIMESTAMP
                    && m.fields[j].field_def != FIELD_MSG_INDEX
            &&& m.timestamp == spec_display_ts(st2.timestamp)
        },
{
    let local = spec_local_msg_type(header_byte);
    match st.defs[local as int] {
        None => {},
        Some(def) => {
            lemma_reserved_fields_intercepted(
                data,
                def.fields,
                0,
                st.bytes_read,
                def.is_big_endian,
                Seq::empty(),
                st.timestamp,
                0,
            );
        },
    }
}

/// Fail-fast on an unknown local type: a plain data record naming a local
/// message type with no definition in force stops the record loop at once
/// with `UndefinedLocalMessageType`, and no message is produced for it.
pub proof fn lemma_undefined_local_type(data: Seq<u8>, st: SpecState, budget: int)
    requires
        st.bytes_read < budget,
        st.bytes_read + 1 <= data.len(),
        data[st.bytes_read] & 0x80 == 0,
        data[st.bytes_read] & 0x40 == 0,
        data[st.bytes_read] & 0x10 == 0,
        st.defs[(data[st.bytes_read] & 0x0f) as int] is None,
    ensures
        spec_decode_records(data, st, budget) == (
            Seq::<SpecMessage>::empty(),
            Some(FitError::UndefinedLocalMessageType),
        ),
{
    let header_byte = data[st.bytes_read];
    let st1 = SpecState { defs: st.defs, timestamp: st.timestamp, bytes_read: st.bytes_read + 1 };
    assert(spec_read_record(data, st) == Err::<(SpecState, Option<SpecMessage>), FitError>(
        FitError::UndefinedLocalMessageType,
    ));
}

/// Budget termination: once the bytes consumed have reached the budget the
/// header declared, the record loop issues no further record read — it ends
/// with no message and no error, whatever bytes remain in the stream.
pub proof fn lemma_budget_termination(data: Seq<u8>, st: SpecState, budget: int)
    requires
        st.bytes_read >= budget,
    ensures
        spec_decode_records(data, st, budget) == (
            Seq::<SpecMessage>::empty(),
            Option::<FitError>::None,
        ),
{
}

} // verus!
