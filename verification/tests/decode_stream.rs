use fit_file::error::FitError;
use fit_file::fields::FieldType;
use fit_file::fit::{compute_crc, read, Fit};
use fit_file::header::FitHeader;

/// A 14-byte header declaring the given data-section size, with valid magic.
fn header14(data_size: u32) -> Vec<u8> {
    let ds = data_size.to_le_bytes();
    vec![
        14, 0x10, 0x2A, 0x08, ds[0], ds[1], ds[2], ds[3], b'.', b'F', b'I', b'T', 0x00, 0x00,
    ]
}

/// A 12-byte header declaring the given data-section size, with valid magic.
fn header12(data_size: u32) -> Vec<u8> {
    let ds = data_size.to_le_bytes();
    vec![12, 0x10, 0x2A, 0x08, ds[0], ds[1], ds[2], ds[3], b'.', b'F', b'I', b'T']
}

/// A stream whose record section is `records`, with the declared size and
/// trailing CRC filled in.
fn stream(mut header: Vec<u8>, records: &[u8]) -> Vec<u8> {
    let hl = header[0] as usize;
    let ds = (records.len() + 2) as u32;
    let dsb = ds.to_le_bytes();
    header[4] = dsb[0];
    header[5] = dsb[1];
    header[6] = dsb[2];
    header[7] = dsb[3];
    header.extend_from_slice(records);
    let data = header.clone();
    let crc = compute_crc(&data, hl, data.len());
    header.push((crc & 0xff) as u8);
    header.push((crc >> 8) as u8);
    header
}

#[test]
fn header_roundtrip_14_byte_form() {
    let data = header14(0x04030201);
    let mut h = FitHeader::new();
    assert!(h.read(&data).is_ok());
    assert_eq!(h.header_len, 14);
    assert!(h.validate());
    assert_eq!(h.data_size(), 0x04030201);
}

#[test]
fn header_roundtrip_12_byte_form() {
    let data = header12(0x00C0FFEE);
    let mut h = FitHeader::new();
    assert!(h.read(&data).is_ok());
    assert_eq!(h.header_len, 12);
    assert!(h.validate());
    assert_eq!(h.data_size(), 0x00C0FFEE);
}

#[test]
fn header_bad_magic_rejected() {
    let mut data = header14(2);
    data[9] = b'X';
    let mut h = FitHeader::new();
    assert!(h.read(&data).is_ok());
    assert!(!h.validate());
    let mut fit = Fit::new();
    let mut msgs = Vec::new();
    assert_eq!(fit.read(&data, &mut msgs), Err(FitError::InvalidHeader));
    assert!(msgs.is_empty());
}

#[test]
fn header_truncated_rejected() {
    let data = vec![14, 0, 0, 0, 0, 0, 0, 0, b'.', b'F', b'I'];
    let mut h = FitHeader::new();
    assert_eq!(h.read(&data), Err(FitError::TruncatedInput));
    // 12 bytes present, but the first byte announces the 14-byte form.
    let data = header14(2)[..13].to_vec();
    let mut h = FitHeader::new();
    assert_eq!(h.read(&data), Err(FitError::TruncatedInput));
}

#[test]
fn end_to_end_single_record() {
    // One definition for local type 0 (global message number 20,
    // little-endian, a uint16 speed field then a uint16 timestamp field),
    // one data record carrying speed = 500 and timestamp = 100.
    let records = [
        0x40, // definition record, local type 0
        0x00, 0x00, // reserved, little-endian architecture
        20, 0, // global message number 20
        2,    // two fields
        1, 2, 0x84, // field 1 (speed), two bytes, uint16
        253, 2, 0x84, // field 253 (timestamp), two bytes, uint16
        0x00, // data record, local type 0
        0xF4, 0x01, // speed = 500
        100, 0, // timestamp = 100
    ];
    let data = stream(header14(0), &records);
    let (fit, msgs) = read(&data).unwrap();
    assert_eq!(fit.header.header_len, 14);
    assert_eq!(msgs.len(), 1);
    let msg = &msgs[0];
    assert_eq!(msg.timestamp, 631065600 + 100);
    assert_eq!(msg.global_msg_num, 20);
    assert_eq!(msg.local_msg_type, 0);
    assert_eq!(msg.fields.len(), 1);
    assert_eq!(msg.fields[0].field_def, 1);
    assert_eq!(msg.fields[0].value_uint, 500);
    assert!(matches!(msg.fields[0].type_enum, FieldType::FieldTypeUInt));
}

#[test]
fn definition_overwrite_uses_second_definition() {
    // Local type 3 is defined twice; the data record that follows must be
    // laid out by the second definition: big-endian, global number 21, one
    // uint16 field numbered 7 - nothing of the first definition remains.
    let records = [
        0x43, // definition record, local type 3
        0x00, 0x00, 20, 0, 1, // little-endian, global 20, one field
        5, 1, 0x02, // field 5, one byte, uint8
        0x43, // second definition record for local type 3
        0x00, 0x01, // big-endian architecture
        0, 21, // global message number 21, big-endian
        1,    // one field
        7, 2, 0x84, // field 7, two bytes, uint16
        0x03, // data record, local type 3
        0x01, 0x02, // field 7 = 0x0102 big-endian
    ];
    let data = stream(header14(0), &records);
    let (_, msgs) = read(&data).unwrap();
    assert_eq!(msgs.len(), 1);
    assert_eq!(msgs[0].global_msg_num, 21);
    assert_eq!(msgs[0].fields.len(), 1);
    assert_eq!(msgs[0].fields[0].field_def, 7);
    assert_eq!(msgs[0].fields[0].value_uint, 0x0102);
}

#[test]
fn endianness_full_record() {
    // The same four bytes decode differently under the two architectures.
    let records = [
        0x40, 0x00, 0x01, 0, 20, 1, // big-endian definition, local 0
        9, 4, 0x86, // field 9, four bytes, uint32
        0x00, 0x01, 0x02, 0x03, 0x04, // data record
        0x41, 0x00, 0x00, 20, 0, 1, // little-endian definition, local 1
        9, 4, 0x86, // field 9, four bytes, uint32
        0x01, 0x01, 0x02, 0x03, 0x04, // data record
    ];
    let data = stream(header14(0), &records);
    let (_, msgs) = read(&data).unwrap();
    assert_eq!(msgs.len(), 2);
    assert_eq!(msgs[0].fields[0].value_uint, 0x01020304);
    assert_eq!(msgs[1].fields[0].value_uint, 0x04030201);
}

#[test]
fn compressed_timestamp_rollover() {
    // A data record sets the running timestamp to 30 (low five bits 30);
    // the compressed record's offset 2 is below that, so the new timestamp
    // rolls into the next window: (30 & !0x1F) + 2 + 32 = 34.
    let records = [
        0x40, 0x00, 0x00, 20, 0, 2, // definition, local 0, little-endian
        253, 4, 0x86, // timestamp field, four bytes
        1, 1, 0x02, // field 1, one byte
        0x00, 30, 0, 0, 0, 7, // data record: timestamp = 30, field 1 = 7
        0x41, 0x00, 0x00, 21, 0, 1, // definition, local 1
        1, 1, 0x02, // field 1, one byte
        0xA2, // compressed-timestamp data record: local 1, offset 2
        9,    // field 1 = 9
    ];
    let data = stream(header14(0), &records);
    let (_, msgs) = read(&data).unwrap();
    assert_eq!(msgs.len(), 2);
    assert_eq!(msgs[0].timestamp, 631065600 + 30);
    assert_eq!(msgs[1].timestamp, 631065600 + 34);
    assert_eq!(msgs[1].fields[0].value_uint, 9);
}

#[test]
fn compressed_timestamp_no_rollover() {
    // Offset 5 is at or above the low five bits 3, so no rollover:
    // the new timestamp is (3 & !0x1F) + 5 = 5.
    let records = [
        0x40, 0x00, 0x00, 20, 0, 2, // definition, local 0, little-endian
        253, 4, 0x86, 1, 1, 0x02, // timestamp field and field 1
        0x00, 3, 0, 0, 0, 7, // data record: timestamp = 3
        0x85, // compressed-timestamp data record: local 0, offset 5
        0, 0, 0, 0, // the timestamp field of the layout, value 0
        9,
    ];
    let data = stream(header14(0), &records);
    let (_, msgs) = read(&data).unwrap();
    assert_eq!(msgs.len(), 2);
    // The record's own timestamp field (value 0) then overwrites the
    // compressed value, and zero is reported as "no timestamp".
    assert_eq!(msgs[0].timestamp, 631065600 + 3);
    assert_eq!(msgs[1].timestamp, 0);
}

#[test]
fn reserved_timestamp_field_never_emitted() {
    let records = [
        0x40, 0x00, 0x00, 20, 0, 2, // definition, local 0
        253, 4, 0x86, // timestamp field
        2, 1, 0x02, // field 2
        0x00, 200, 0, 0, 0, 11, // data record
    ];
    let data = stream(header14(0), &records);
    let (_, msgs) = read(&data).unwrap();
    assert_eq!(msgs.len(), 1);
    assert_eq!(msgs[0].fields.len(), 1);
    assert!(msgs[0].fields.iter().all(|f| f.field_def != 253 && f.field_def != 254));
    assert_eq!(msgs[0].timestamp, 631065600 + 200);
}

#[test]
fn message_index_reported_beside_fields() {
    let records = [
        0x40, 0x00, 0x00, 20, 0, 2, // definition, local 0
        254, 2, 0x84, // message-index field
        2, 1, 0x02, // field 2
        0x00, 0x2A, 0x00, 11, // data record: index 42, field 2 = 11
    ];
    let data = stream(header14(0), &records);
    let (_, msgs) = read(&data).unwrap();
    assert_eq!(msgs.len(), 1);
    assert_eq!(msgs[0].message_index, 42);
    assert_eq!(msgs[0].fields.len(), 1);
    assert_eq!(msgs[0].fields[0].field_def, 2);
}

#[test]
fn undefined_local_type_fails_fast() {
    // A data record for local type 5 with no definition in the stream.
    let records = [0x05, 0x00, 0x00];
    let data = stream(header14(0), &records);
    let mut fit = Fit::new();
    let mut msgs = Vec::new();
    let r = fit.read(&data, &mut msgs);
    assert_eq!(r, Err(FitError::UndefinedLocalMessageType));
    assert!(msgs.is_empty());
}

#[test]
fn unsupported_base_type_fails_fast() {
    let records = [
        0x40, 0x00, 0x00, 20, 0, 1, // definition, local 0
        3, 1, 0x55, // field 3 declares an unknown base type
        0x00, 9, // data record
    ];
    let data = stream(header14(0), &records);
    let mut fit = Fit::new();
    let mut msgs = Vec::new();
    assert_eq!(fit.read(&data, &mut msgs), Err(FitError::UnsupportedBaseType(0x55)));
    assert!(msgs.is_empty());
}

#[test]
fn reserved_bit_fails_fast() {
    let records = [0x10];
    let data = stream(header14(0), &records);
    let mut fit = Fit::new();
    let mut msgs = Vec::new();
    assert_eq!(fit.read(&data, &mut msgs), Err(FitError::ReservedBitSet));
}

#[test]
fn truncated_record_fails_fast() {
    // The definition record announces two fields but the stream ends.
    let records = [0x40, 0x00, 0x00, 20, 0, 2, 1, 1, 0x02];
    let mut data = header14(records.len() as u32 + 2);
    data.extend_from_slice(&records);
    let mut fit = Fit::new();
    let mut msgs = Vec::new();
    assert_eq!(fit.read(&data, &mut msgs), Err(FitError::TruncatedInput));
}

#[test]
fn messages_before_failure_are_kept() {
    let records = [
        0x40, 0x00, 0x00, 20, 0, 1, // definition, local 0
        1, 1, 0x02, // field 1, one byte
        0x00, 5, // a good data record
        0x07, // data record for the undefined local type 7
    ];
    let data = stream(header14(0), &records);
    let mut fit = Fit::new();
    let mut msgs = Vec::new();
    assert_eq!(fit.read(&data, &mut msgs), Err(FitError::UndefinedLocalMessageType));
    assert_eq!(msgs.len(), 1);
    assert_eq!(msgs[0].fields[0].value_uint, 5);
}

#[test]
fn budget_stops_before_trailing_bytes() {
    // Bytes beyond the declared data size are never read as records: the
    // trailing garbage here would be an undefined-local-type record.
    let records = [
        0x40, 0x00, 0x00, 20, 0, 1, 1, 1, 0x02, // definition, local 0
        0x00, 5, // one data record
    ];
    let mut data = stream(header14(0), &records);
    data.extend_from_slice(&[0x0F, 0xAB, 0xCD]); // padding past the CRC
    let mut fit = Fit::new();
    let mut msgs = Vec::new();
    assert_eq!(fit.read(&data, &mut msgs), Ok(()));
    assert_eq!(msgs.len(), 1);
}

#[test]
fn developer_fields_are_flagged() {
    let records = [
        0x60, // definition record with developer data, local type 0
        0x00, 0x00, 20, 0, 1, // little-endian, global 20, one field
        1, 1, 0x02, // field 1, one byte, uint8
        1, // one developer field
        3, 2, 0x84, // developer field 3, two bytes, uint16
        0x00, 7, 0x34, 0x12, // data record
    ];
    let data = stream(header14(0), &records);
    let (_, msgs) = read(&data).unwrap();
    assert_eq!(msgs.len(), 1);
    assert_eq!(msgs[0].fields.len(), 2);
    assert!(!msgs[0].fields[0].is_dev_field);
    assert_eq!(msgs[0].fields[0].value_uint, 7);
    assert!(msgs[0].fields[1].is_dev_field);
    assert_eq!(msgs[0].fields[1].field_def, 3);
    assert_eq!(msgs[0].fields[1].value_uint, 0x1234);
}

#[test]
fn end_to_end_12_byte_header() {
    let records = [
        0x40, 0x00, 0x00, 20, 0, 1, // definition, local 0
        1, 1, 0x02, // field 1, one byte, uint8
        0x00, 0x2A, // data record, field 1 = 42
    ];
    let data = stream(header12(0), &records);
    let (fit, msgs) = read(&data).unwrap();
    assert_eq!(fit.header.header_len, 12);
    assert_eq!(msgs.len(), 1);
    assert_eq!(msgs[0].fields[0].value_uint, 42);
}

#[test]
fn zero_data_size_reads_nothing() {
    // A declared data size of 2 leaves no room for records: the budget is
    // the header length alone, and whatever follows is never touched.
    let mut data = header14(2);
    data.extend_from_slice(&[0xFF, 0xFF]);
    let mut fit = Fit::new();
    let mut msgs = Vec::new();
    assert_eq!(fit.read(&data, &mut msgs), Ok(()));
    assert!(msgs.is_empty());
}

#[test]
fn truncated_field_data_fails_fast() {
    // The definition promises a four-byte field but the data record ends
    // after two bytes.
    let records = [
        0x40, 0x00, 0x00, 20, 0, 1, // definition, local 0
        9, 4, 0x86, // field 9, four bytes, uint32
        0x00, 0x01, 0x02, // data record cut short
    ];
    let mut data = header14(records.len() as u32 + 4);
    data.extend_from_slice(&records);
    let mut fit = Fit::new();
    let mut msgs = Vec::new();
    assert_eq!(fit.read(&data, &mut msgs), Err(FitError::TruncatedInput));
    assert!(msgs.is_empty());
}

#[test]
fn sixty_four_bit_fields() {
    let records = [
        0x40, 0x00, 0x00, 20, 0, 2, // definition, local 0, little-endian
        1, 8, 0x8F, // field 1, eight bytes, uint64
        2, 8, 0x8E, // field 2, eight bytes, sint64
        0x00, // data record
        0x01, 0x00, 0x00, 0x00, 0x00, 0x00, 0x00, 0x80, // 0x8000000000000001
        0xFF, 0xFF, 0xFF, 0xFF, 0xFF, 0xFF, 0xFF, 0xFF, // -1
    ];
    let data = stream(header14(0), &records);
    let (_, msgs) = read(&data).unwrap();
    assert_eq!(msgs[0].fields[0].value_uint, 0x8000000000000001);
    assert_eq!(msgs[0].fields[1].value_sint, -1);
}

#[test]
fn crc_known_vector() {
    let data: Vec<u8> = b"123456789".to_vec();
    assert_eq!(compute_crc(&data, 0, data.len()), 0xBB3D);
    assert_eq!(compute_crc(&data, 0, 0), 0);
    let fit = Fit::new();
    let mut crc: u16 = 0;
    for &b in data.iter() {
        crc = fit.check_crc(crc, b);
    }
    assert_eq!(crc, 0xBB3D);
}

#[test]
fn crc_trailer_matches() {
    let records = [0x40, 0x00, 0x00, 20, 0, 1, 1, 1, 0x02, 0x00, 5];
    let data = stream(header14(0), &records);
    let n = data.len();
    let crc = compute_crc(&data, 14, n - 2);
    assert_eq!(crc, (data[n - 2] as u16) | ((data[n - 1] as u16) << 8));
}
