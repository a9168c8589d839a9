use fit_file::codec::{
    byte_array_to_num, byte_array_to_sint16, byte_array_to_sint32, byte_array_to_sint8,
    byte_array_to_string, byte_array_to_uint16, byte_array_to_uint32, byte_array_to_uint64,
    byte_array_to_uint8, signed_of_uint,
};
use fit_file::fields::{FieldType, FitFieldValue};
use fit_file::fit::read;
use fit_file::messages::{FitFileIdMsg, FitWorkoutStepMsg};
use fit_file::names::{init_global_msg_name_map, init_sport_name_map};
use fit_file::profile::{
    FIT_SPORT_RUNNING, GLOBAL_MSG_NUM_LENGTH, GLOBAL_MSG_NUM_RECORD, GLOBAL_MSG_NUM_SESSION,
};

#[test]
fn endianness_four_byte_field() {
    let bytes = vec![0x01, 0x02, 0x03, 0x04];
    assert_eq!(byte_array_to_num(&bytes, 4, true), 0x01020304);
    assert_eq!(byte_array_to_num(&bytes, 4, false), 0x04030201);
    assert_eq!(byte_array_to_uint32(&bytes, true), 0x01020304);
    assert_eq!(byte_array_to_uint32(&bytes, false), 0x04030201);
}

#[test]
fn integer_conversions() {
    let bytes = vec![0xFF, 0x7F];
    assert_eq!(byte_array_to_uint16(&bytes, false), 0x7FFF);
    assert_eq!(byte_array_to_sint16(&bytes, false), 0x7FFF);
    assert_eq!(byte_array_to_sint16(&bytes, true), -129);
    assert_eq!(byte_array_to_uint8(&bytes), 0xFF);
    assert_eq!(byte_array_to_sint8(&bytes), -1);
    let neg = vec![0xFF, 0xFF, 0xFF, 0xFF];
    assert_eq!(byte_array_to_sint32(&neg, false), -1);
    let eight = vec![1, 0, 0, 0, 0, 0, 0, 0x80];
    assert_eq!(byte_array_to_uint64(&eight, false), 0x8000000000000001);
    assert_eq!(signed_of_uint(0x8000000000000001, 8), i64::MIN + 1);
    assert_eq!(signed_of_uint(0x80, 1), -128);
    assert_eq!(signed_of_uint(0x7F, 1), 127);
}

#[test]
fn string_conversion_trims_trailing_nul() {
    let bytes = vec![b'a', b'b', 0, b'c', 0, 0];
    assert_eq!(byte_array_to_string(&bytes, 6), "ab\0c");
    assert_eq!(byte_array_to_string(&bytes, 2), "ab");
    assert_eq!(byte_array_to_string(&bytes, 0), "");
    let nuls = vec![0, 0];
    assert_eq!(byte_array_to_string(&nuls, 2), "");
}

#[test]
fn field_value_getters_truncate() {
    let mut f = FitFieldValue::new();
    assert!(matches!(f.type_enum, FieldType::FieldTypeNotSet));
    f.value_uint = 0x1FF;
    f.value_sint = -1;
    assert_eq!(f.get_u8(), 0xFF);
    assert_eq!(f.get_u16(), 0x1FF);
    assert_eq!(f.get_u32(), 0x1FF);
    assert_eq!(f.get_u64(), 0x1FF);
    assert_eq!(f.get_i8(), -1);
    assert_eq!(f.get_i16(), -1);
    assert_eq!(f.get_i32(), -1);
    assert_eq!(f.get_i64(), -1);
}

/// A stream with one definition and one data record for local type 0.
fn one_record_stream(fields: &[(u8, u8, u8)], payload: &[u8]) -> Vec<u8> {
    let mut records = vec![0x40, 0x00, 0x00, 20, 0, fields.len() as u8];
    for &(num, size, base) in fields {
        records.extend_from_slice(&[num, size, base]);
    }
    records.push(0x00);
    records.extend_from_slice(payload);
    let ds = (records.len() + 2) as u32;
    let dsb = ds.to_le_bytes();
    let mut data = vec![
        14, 0x10, 0x2A, 0x08, dsb[0], dsb[1], dsb[2], dsb[3], b'.', b'F', b'I', b'T', 0, 0,
    ];
    data.extend_from_slice(&records);
    data.extend_from_slice(&[0, 0]);
    data
}

#[test]
fn string_field_decodes() {
    let data = one_record_stream(&[(8, 6, 0x07)], b"abc\0\0\0");
    let (_, msgs) = read(&data).unwrap();
    assert_eq!(msgs[0].fields[0].value_string, "abc");
    assert!(matches!(msgs[0].fields[0].type_enum, FieldType::FieldTypeStr));
}

#[test]
fn byte_array_field_passes_through() {
    let data = one_record_stream(&[(6, 3, 0x0D)], &[9, 0, 7]);
    let (_, msgs) = read(&data).unwrap();
    assert_eq!(msgs[0].fields[0].value_byte_array, vec![9, 0, 7]);
    assert!(matches!(msgs[0].fields[0].type_enum, FieldType::FieldTypeByteArray));
}

#[test]
fn float_fields_carry_big_endian_bits() {
    // Float bit patterns sit big-endian on the wire whatever the record's
    // declared endianness; 0x3F800000 is 1.0f32.
    let data = one_record_stream(&[(2, 4, 0x88)], &[0x3F, 0x80, 0x00, 0x00]);
    let (_, msgs) = read(&data).unwrap();
    assert_eq!(msgs[0].fields[0].value_float_bits, 0x3F800000);
    assert!(matches!(msgs[0].fields[0].type_enum, FieldType::FieldTypeFloat));
    assert_eq!(f32::from_bits(msgs[0].fields[0].value_float_bits as u32), 1.0f32);
    let data = one_record_stream(
        &[(2, 8, 0x89)],
        &[0x3F, 0xF0, 0x00, 0x00, 0x00, 0x00, 0x00, 0x00],
    );
    let (_, msgs) = read(&data).unwrap();
    assert_eq!(f64::from_bits(msgs[0].fields[0].value_float_bits), 1.0f64);
}

#[test]
fn signed_field_decodes() {
    let data = one_record_stream(&[(4, 2, 0x83)], &[0xFE, 0xFF]);
    let (_, msgs) = read(&data).unwrap();
    assert_eq!(msgs[0].fields[0].value_sint, -2);
    assert!(matches!(msgs[0].fields[0].type_enum, FieldType::FieldTypeSInt));
}

#[test]
fn part_index_field_passes_through() {
    // The reserved part-index number has no assigned behavior; it comes out
    // as an ordinary field under its own number.
    let data = one_record_stream(&[(250, 1, 0x02)], &[3]);
    let (_, msgs) = read(&data).unwrap();
    assert_eq!(msgs[0].fields.len(), 1);
    assert_eq!(msgs[0].fields[0].field_def, 250);
    assert_eq!(msgs[0].fields[0].value_uint, 3);
}

#[test]
fn global_msg_names() {
    let names = init_global_msg_name_map();
    assert_eq!(names.get(&GLOBAL_MSG_NUM_RECORD).unwrap(), "Record");
    assert_eq!(names.get(&GLOBAL_MSG_NUM_SESSION).unwrap(), "Session");
    assert_eq!(names.get(&GLOBAL_MSG_NUM_LENGTH).unwrap(), "Length");
    assert!(names.get(&11).is_none());
}

#[test]
fn sport_names() {
    let names = init_sport_name_map();
    assert_eq!(names.get(&FIT_SPORT_RUNNING).unwrap(), "Running");
    assert_eq!(names.get(&0).unwrap(), "Generic");
    assert!(names.get(&200).is_none());
}

fn uint_field(num: u8, value: u64) -> FitFieldValue {
    let mut f = FitFieldValue::new();
    f.field_def = num;
    f.type_enum = FieldType::FieldTypeUInt;
    f.value_uint = value;
    f
}

#[test]
fn file_id_msg_files_fields_by_name() {
    let mut name_field = FitFieldValue::new();
    name_field.field_def = 8;
    name_field.type_enum = FieldType::FieldTypeStr;
    name_field.value_string = "Edge".to_string();
    let fields = vec![uint_field(1, 15), uint_field(0, 4), name_field, uint_field(1, 16)];
    let msg = FitFileIdMsg::new(fields);
    // The later occurrence of field 1 wins.
    assert_eq!(msg.manufacturer, Some(16));
    assert_eq!(msg.file_type, Some(4));
    assert_eq!(msg.product_name.as_deref(), Some("Edge"));
    assert_eq!(msg.serial_number, None);
    assert_eq!(msg.product, None);
}

#[test]
fn file_id_msg_skips_developer_fields() {
    let mut dev = uint_field(0, 9);
    dev.is_dev_field = true;
    let msg = FitFileIdMsg::new(vec![dev]);
    assert_eq!(msg.file_type, None);
}

#[test]
fn workout_step_msg_takes_message_index() {
    let fields = vec![uint_field(1, 0), uint_field(2, 60000), uint_field(3, 1), uint_field(4, 2)];
    let msg = FitWorkoutStepMsg::new(3, fields);
    assert_eq!(msg.message_index, 3);
    assert_eq!(msg.duration_type, Some(0));
    assert_eq!(msg.duration_value, Some(60000));
    assert_eq!(msg.target_type, Some(1));
    assert_eq!(msg.target_value, Some(2));
    assert_eq!(msg.step_name, None);
    assert_eq!(msg.intensity, None);
}
