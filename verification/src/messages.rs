//! Named views of a few well-known message kinds: each constructor takes the
//! decoded field list of one data record and files each field it recognizes
//! under its name. When a field number occurs more than once, the last
//! occurrence wins; fields the struct does not know, and developer fields,
//! are passed over. These are catalog glue around the decoder: the decoder
//! itself never consults them.

use vstd::prelude::*;
use crate::fields::{FitFieldValue, SpecFieldValue};
use crate::record::spec_fields_view;

verus! {

/// The last non-developer field with the given field number, if any.
pub open spec fn spec_msg_field(fields: Seq<SpecFieldValue>, num: u8) -> Option<SpecFieldValue>
    decreases fields.len(),
{
    if fields.len() == 0 {
        None
    } else if !fields.last().is_dev_field && fields.last().field_def == num {
        Some(fields.last())
    } else {
        spec_msg_field(fields.drop_last(), num)
    }
}

/// The low 8 bits of the unsigned value of the last field with the given
/// number, if any.
pub open spec fn spec_msg_u8(fields: Seq<SpecFieldValue>, num: u8) -> Option<u8> {
    match spec_msg_field(fields, num) {
        Some(f) => Some(f.value_uint as u8),
        None => None,
    }
}

/// The low 16 bits of the unsigned value of the last field with the given
/// number, if any.
pub open spec fn spec_msg_u16(fields: Seq<SpecFieldValue>, num: u8) -> Option<u16> {
    match spec_msg_field(fields, num) {
        Some(f) => Some(f.value_uint as u16),
        None => None,
    }
}

/// The low 32 bits of the unsigned value of the last field with the given
/// number, if any.
pub open spec fn spec_msg_u32(fields: Seq<SpecFieldValue>, num: u8) -> Option<u32> {
    match spec_msg_field(fields, num) {
        Some(f) => Some(f.value_uint as u32),
        None => None,
    }
}

/// The string value of the last field with the given number, if any.
pub open spec fn spec_msg_string(fields: Seq<SpecFieldValue>, num: u8) -> Option<Seq<char>> {
    match spec_msg_field(fields, num) {
        Some(f) => Some(f.value_string),
        None => None,
    }
}

/// The view of an optional string.
pub open spec fn spec_opt_string_view(o: Option<String>) -> Option<Seq<char>> {
    match o {
        Some(s) => Some(s@),
        None => None,
    }
}

/// Extending the scanned prefix by one field either captures that field, for
/// its own number, or changes nothing.
proof fn lemma_msg_field_step(fields: Seq<SpecFieldValue>, i: int)
    requires
        0 <= i < fields.len(),
    ensures
        forall|num: u8|
            #[trigger] spec_msg_field(fields.take(i + 1), num) == (
            if !fields[i].is_dev_field && fields[i].field_def == num {
                Some(fields[i])
            } else {
                spec_msg_field(fields.take(i), num)
            }),
{
    assert(fields.take(i + 1).drop_last() =~= fields.take(i));
    assert(fields.take(i + 1).last() == fields[i]);
}

/// A named view of one file-identity message.
#[derive(Clone, Debug)]
pub struct FitFileIdMsg {
    pub manufacturer: Option<u8>,
    pub serial_number: Option<u32>,
    pub time_created: Option<u32>,
    pub product_name: Option<String>,
    pub number: Option<u16>,
    pub file_type: Option<u8>,
    pub product: Option<u16>,
}

impl FitFileIdMsg {
    /// Files the decoded fields of one data record under their names;
    /// for a field number seen more than once the last value wins, and
    /// unknown and developer fields are passed over.
    pub fn new(fields: Vec<FitFieldValue>) -> (msg: Self)
        ensures
            msg.manufacturer == spec_msg_u8(spec_fields_view(fields@), 1),
            msg.serial_number == spec_msg_u32(spec_fields_view(fields@), 3),
            msg.time_created == spec_msg_u32(spec_fields_view(fields@), 4),
            spec_opt_string_view(msg.product_name) == spec_msg_string(spec_fields_view(fields@), 8),
            msg.number == spec_msg_u16(spec_fields_view(fields@), 5),
            msg.file_type == spec_msg_u8(spec_fields_view(fields@), 0),
            msg.product == spec_msg_u16(spec_fields_view(fields@), 2),
    {
        let ghost fv = spec_fields_view(fields@);
        let mut msg = FitFileIdMsg { manufacturer: None, serial_number: None, time_created: None, product_name: None, number: None, file_type: None, product: None };
        proof {
            assert(fv.take(0) =~= Seq::<SpecFieldValue>::empty());
        }
        let n = fields.len();
        let mut i: usize = 0;
        while i < n
            invariant
                i <= n,
                n == fields@.len(),
                fv == spec_fields_view(fields@),
                msg.manufacturer == spec_msg_u8(fv.take(i as int), 1),
                msg.serial_number == spec_msg_u32(fv.take(i as int), 3),
                msg.time_created == spec_msg_u32(fv.take(i as int), 4),
                spec_opt_string_view(msg.product_name) == spec_msg_string(fv.take(i as int), 8),
                msg.number == spec_msg_u16(fv.take(i as int), 5),
                msg.file_type == spec_msg_u8(fv.take(i as int), 0),
                msg.product == spec_msg_u16(fv.take(i as int), 2),
            decreases n - i,
        {
            let field = &fields[i];
            proof {
                lemma_msg_field_step(fv, i as int);
                assert(fv[i as int] == fields@[i as int]@);
            }
            if !field.is_dev_field {
                if field.field_def == 1 {
                    msg.manufacturer = Some(field.get_u8());
                } else if field.field_def == 3 {
                    msg.serial_number = Some(field.get_u32());
                } else if field.field_def == 4 {
                    msg.time_created = Some(field.get_u32());
                } else if field.field_def == 8 {
                    msg.product_name = Some(field.value_string.clone());
                } else if field.field_def == 5 {
                    msg.number = Some(field.get_u16());
                } else if field.field_def == 0 {
                    msg.file_type = Some(field.get_u8());
                } else if field.field_def == 2 {
                    msg.product = Some(field.get_u16());
                }
            }
            i = i + 1;
        }
        proof {
            assert(fv.take(n as int) =~= fv);
        }
        msg
    }
}

/// A named view of one file-creator message.
#[derive(Clone, Debug)]
pub struct FitFileCreatorMsg {
    pub hardware_version: Option<u8>,
    pub software_version: Option<u16>,
}

impl FitFileCreatorMsg {
    /// Files the decoded fields of one data record under their names;
    /// for a field number seen more than once the last value wins, and
    /// unknown and developer fields are passed over.
    pub fn new(fields: Vec<FitFieldValue>) -> (msg: Self)
        ensures
            msg.hardware_version == spec_msg_u8(spec_fields_view(fields@), 1),
            msg.software_version == spec_msg_u16(spec_fields_view(fields@), 0),
    {
        let ghost fv = spec_fields_view(fields@);
        let mut msg = FitFileCreatorMsg { hardware_version: None, software_version: None };
        proof {
            assert(fv.take(0) =~= Seq::<SpecFieldValue>::empty());
        }
        let n = fields.len();
        let mut i: usize = 0;
        while i < n
            invariant
                i <= n,
                n == fields@.len(),
                fv == spec_fields_view(fields@),
                msg.hardware_version == spec_msg_u8(fv.take(i as int), 1),
                msg.software_version == spec_msg_u16(fv.take(i as int), 0),
            decreases n - i,
        {
            let field = &fields[i];
            proof {
                lemma_msg_field_step(fv, i as int);
                assert(fv[i as int] == fields@[i as int]@);
            }
            if !field.is_dev_field {
                if field.field_def == 1 {
                    msg.hardware_version = Some(field.get_u8());
                } else if field.field_def == 0 {
                    msg.software_version = Some(field.get_u16());
                }
            }
            i = i + 1;
        }
        proof {
            assert(fv.take(n as int) =~= fv);
        }
        msg
    }
}

/// A named view of one device-information message.
#[derive(Clone, Debug)]
pub struct FitDeviceInfoMsg {
    pub battery_voltage: Option<u16>,
    pub cum_operating_time: Option<u32>,
    pub serial_number: Option<u32>,
    pub product: Option<u16>,
    pub timestamp: Option<u32>,
    pub sensor_position: Option<u8>,
    pub source_type: Option<u8>,
    pub software_version: Option<u16>,
    pub ant_transmission_type: Option<u8>,
    pub ant_device_number: Option<u16>,
    pub descriptor: Option<String>,
    pub device_type: Option<u8>,
    pub ant_network: Option<u8>,
    pub product_name: Option<String>,
    pub device_index: Option<u8>,
    pub hardware_version: Option<u8>,
    pub battery_status: Option<u8>,
    pub manufacturer: Option<u16>,
}

impl FitDeviceInfoMsg {
    /// Files the decoded fields of one data record under their names;
    /// for a field number seen more than once the last value wins, and
    /// unknown and developer fields are passed over.
    pub fn new(fields: Vec<FitFieldValue>) -> (msg: Self)
        ensures
            msg.battery_voltage == spec_msg_u16(spec_fields_view(fields@), 10),
            msg.cum_operating_time == spec_msg_u32(spec_fields_view(fields@), 7),
            msg.serial_number == spec_msg_u32(spec_fields_view(fields@), 3),
            msg.product == spec_msg_u16(spec_fields_view(fields@), 4),
            msg.timestamp == spec_msg_u32(spec_fields_view(fields@), 253),
            msg.sensor_position == spec_msg_u8(spec_fields_view(fields@), 18),
            msg.source_type == spec_msg_u8(spec_fields_view(fields@), 25),
            msg.software_version == spec_msg_u16(spec_fields_view(fields@), 5),
            msg.ant_transmission_type == spec_msg_u8(spec_fields_view(fields@), 20),
            msg.ant_device_number == spec_msg_u16(spec_fields_view(fields@), 21),
            spec_opt_string_view(msg.descriptor) == spec_msg_string(spec_fields_view(fields@), 19),
            msg.device_type == spec_msg_u8(spec_fields_view(fields@), 1),
            msg.ant_network == spec_msg_u8(spec_fields_view(fields@), 22),
            spec_opt_string_view(msg.product_name) == spec_msg_string(spec_fields_view(fields@), 27),
            msg.device_index == spec_msg_u8(spec_fields_view(fields@), 0),
            msg.hardware_version == spec_msg_u8(spec_fields_view(fields@), 6),
            msg.battery_status == spec_msg_u8(spec_fields_view(fields@), 11),
            msg.manufacturer == spec_msg_u16(spec_fields_view(fields@), 2),
    {
        let ghost fv = spec_fields_view(fields@);
        let mut msg = FitDeviceInfoMsg { battery_voltage: None, cum_operating_time: None, serial_number: None, product: None, timestamp: None, sensor_position: None, source_type: None, software_version: None, ant_transmission_type: None, ant_device_number: None, descriptor: None, device_type: None, ant_network: None, product_name: None, device_index: None, hardware_version: None, battery_status: None, manufacturer: None };
        proof {
            assert(fv.take(0) =~= Seq::<SpecFieldValue>::empty());
        }
        let n = fields.len();
        let mut i: usize = 0;
        while i < n
            invariant
                i <= n,
                n == fields@.len(),
                fv == spec_fields_view(fields@),
                msg.battery_voltage == spec_msg_u16(fv.take(i as int), 10),
                msg.cum_operating_time == spec_msg_u32(fv.take(i as int), 7),
                msg.serial_number == spec_msg_u32(fv.take(i as int), 3),
                msg.product == spec_msg_u16(fv.take(i as int), 4),
                msg.timestamp == spec_msg_u32(fv.take(i as int), 253),
                msg.sensor_position == spec_msg_u8(fv.take(i as int), 18),
                msg.source_type == spec_msg_u8(fv.take(i as int), 25),
                msg.software_version == spec_msg_u16(fv.take(i as int), 5),
                msg.ant_transmission_type == spec_msg_u8(fv.take(i as int), 20),
                msg.ant_device_number == spec_msg_u16(fv.take(i as int), 21),
                spec_opt_string_view(msg.descriptor) == spec_msg_string(fv.take(i as int), 19),
                msg.device_type == spec_msg_u8(fv.take(i as int), 1),
                msg.ant_network == spec_msg_u8(fv.take(i as int), 22),
                spec_opt_string_view(msg.product_name) == spec_msg_string(fv.take(i as int), 27),
                msg.device_index == spec_msg_u8(fv.take(i as int), 0),
                msg.hardware_version == spec_msg_u8(fv.take(i as int), 6),
                msg.battery_status == spec_msg_u8(fv.take(i as int), 11),
                msg.manufacturer == spec_msg_u16(fv.take(i as int), 2),
            decreases n - i,
        {
            let field = &fields[i];
            proof {
                lemma_msg_field_step(fv, i as int);
                assert(fv[i as int] == fields@[i as int]@);
            }
            if !field.is_dev_field {
                if field.field_def == 10 {
                    msg.battery_voltage = Some(field.get_u16());
                } else if field.field_def == 7 {
                    msg.cum_operating_time = Some(field.get_u32());
                } else if field.field_def == 3 {
                    msg.serial_number = Some(field.get_u32());
                } else if field.field_def == 4 {
                    msg.product = Some(field.get_u16());
                } else if field.field_def == 253 {
                    msg.timestamp = Some(field.get_u32());
                } else if field.field_def == 18 {
                    msg.sensor_position = Some(field.get_u8());
                } else if field.field_def == 25 {
                    msg.source_type = Some(field.get_u8());
                } else if field.field_def == 5 {
                    msg.software_version = Some(field.get_u16());
                } else if field.field_def == 20 {
                    msg.ant_transmission_type = Some(field.get_u8());
                } else if field.field_def == 21 {
                    msg.ant_device_number = Some(field.get_u16());
                } else if field.field_def == 19 {
                    msg.descriptor = Some(field.value_string.clone());
                } else if field.field_def == 1 {
                    msg.device_type = Some(field.get_u8());
                } else if field.field_def == 22 {
                    msg.ant_network = Some(field.get_u8());
                } else if field.field_def == 27 {
                    msg.product_name = Some(field.value_string.clone());
                } else if field.field_def == 0 {
                    msg.device_index = Some(field.get_u8());
                } else if field.field_def == 6 {
                    msg.hardware_version = Some(field.get_u8());
                } else if field.field_def == 11 {
                    msg.battery_status = Some(field.get_u8());
                } else if field.field_def == 2 {
                    msg.manufacturer = Some(field.get_u16());
                }
            }
            i = i + 1;
        }
        proof {
            assert(fv.take(n as int) =~= fv);
        }
        msg
    }
}

/// A named view of one pool-length message.
#[derive(Clone, Debug)]
pub struct FitLengthMsg {
    pub opponent_score: Option<u16>,
    pub stroke_count: Option<u16>,
    pub zone_count: Option<u16>,
    pub length_type: Option<u8>,
    pub total_elapsed_time: Option<u32>,
    pub player_score: Option<u16>,
    pub timestamp: Option<u32>,
    pub swim_stroke: Option<u8>,
    pub total_timer_time: Option<u32>,
    pub total_calories: Option<u16>,
    pub start_time: Option<u32>,
    pub message_index: Option<u16>,
    pub event: Option<u8>,
    pub total_strokes: Option<u16>,
    pub event_type: Option<u8>,
    pub avg_swimming_cadence: Option<u8>,
    pub event_group: Option<u8>,
    pub avg_speed: Option<u16>,
}

impl FitLengthMsg {
    /// Files the decoded fields of one data record under their names;
    /// for a field number seen more than once the last value wins, and
    /// unknown and developer fields are passed over.
    pub fn new(fields: Vec<FitFieldValue>) -> (msg: Self)
        ensures
            msg.opponent_score == spec_msg_u16(spec_fields_view(fields@), 19),
            msg.stroke_count == spec_msg_u16(spec_fields_view(fields@), 20),
            msg.zone_count == spec_msg_u16(spec_fields_view(fields@), 21),
            msg.length_type == spec_msg_u8(spec_fields_view(fields@), 12),
            msg.total_elapsed_time == spec_msg_u32(spec_fields_view(fields@), 3),
            msg.player_score == spec_msg_u16(spec_fields_view(fields@), 18),
            msg.timestamp == spec_msg_u32(spec_fields_view(fields@), 253),
            msg.swim_stroke == spec_msg_u8(spec_fields_view(fields@), 7),
            msg.total_timer_time == spec_msg_u32(spec_fields_view(fields@), 4),
            msg.total_calories == spec_msg_u16(spec_fields_view(fields@), 11),
            msg.start_time == spec_msg_u32(spec_fields_view(fields@), 2),
            msg.message_index == spec_msg_u16(spec_fields_view(fields@), 254),
            msg.event == spec_msg_u8(spec_fields_view(fields@), 0),
            msg.total_strokes == spec_msg_u16(spec_fields_view(fields@), 5),
            msg.event_type == spec_msg_u8(spec_fields_view(fields@), 1),
            msg.avg_swimming_cadence == spec_msg_u8(spec_fields_view(fields@), 9),
            msg.event_group == spec_msg_u8(spec_fields_view(fields@), 10),
            msg.avg_speed == spec_msg_u16(spec_fields_view(fields@), 6),
    {
        let ghost fv = spec_fields_view(fields@);
        let mut msg = FitLengthMsg { opponent_score: None, stroke_count: None, zone_count: None, length_type: None, total_elapsed_time: None, player_score: None, timestamp: None, swim_stroke: None, total_timer_time: None, total_calories: None, start_time: None, message_index: None, event: None, total_strokes: None, event_type: None, avg_swimming_cadence: None, event_group: None, avg_speed: None };
        proof {
            assert(fv.take(0) =~= Seq::<SpecFieldValue>::empty());
        }
        let n = fields.len();
        let mut i: usize = 0;
        while i < n
            invariant
                i <= n,
                n == fields@.len(),
                fv == spec_fields_view(fields@),
                msg.opponent_score == spec_msg_u16(fv.take(i as int), 19),
                msg.stroke_count == spec_msg_u16(fv.take(i as int), 20),
                msg.zone_count == spec_msg_u16(fv.take(i as int), 21),
                msg.length_type == spec_msg_u8(fv.take(i as int), 12),
                msg.total_elapsed_time == spec_msg_u32(fv.take(i as int), 3),
                msg.player_score == spec_msg_u16(fv.take(i as int), 18),
                msg.timestamp == spec_msg_u32(fv.take(i as int), 253),
                msg.swim_stroke == spec_msg_u8(fv.take(i as int), 7),
                msg.total_timer_time == spec_msg_u32(fv.take(i as int), 4),
                msg.total_calories == spec_msg_u16(fv.take(i as int), 11),
                msg.start_time == spec_msg_u32(fv.take(i as int), 2),
                msg.message_index == spec_msg_u16(fv.take(i as int), 254),
                msg.event == spec_msg_u8(fv.take(i as int), 0),
                msg.total_strokes == spec_msg_u16(fv.take(i as int), 5),
                msg.event_type == spec_msg_u8(fv.take(i as int), 1),
                msg.avg_swimming_cadence == spec_msg_u8(fv.take(i as int), 9),
                msg.event_group == spec_msg_u8(fv.take(i as int), 10),
                msg.avg_speed == spec_msg_u16(fv.take(i as int), 6),
            decreases n - i,
        {
            let field = &fields[i];
            proof {
                lemma_msg_field_step(fv, i as int);
                assert(fv[i as int] == fields@[i as int]@);
            }
            if !field.is_dev_field {
                if field.field_def == 19 {
                    msg.opponent_score = Some(field.get_u16());
                } else if field.field_def == 20 {
                    msg.stroke_count = Some(field.get_u16());
                } else if field.field_def == 21 {
                    msg.zone_count = Some(field.get_u16());
                } else if field.field_def == 12 {
                    msg.length_type = Some(field.get_u8());
                } else if field.field_def == 3 {
                    msg.total_elapsed_time = Some(field.get_u32());
                } else if field.field_def == 18 {
                    msg.player_score = Some(field.get_u16());
                } else if field.field_def == 253 {
                    msg.timestamp = Some(field.get_u32());
                } else if field.field_def == 7 {
                    msg.swim_stroke = Some(field.get_u8());
                } else if field.field_def == 4 {
                    msg.total_timer_time = Some(field.get_u32());
                } else if field.field_def == 11 {
                    msg.total_calories = Some(field.get_u16());
                } else if field.field_def == 2 {
                    msg.start_time = Some(field.get_u32());
                } else if field.field_def == 254 {
                    msg.message_index = Some(field.get_u16());
                } else if field.field_def == 0 {
                    msg.event = Some(field.get_u8());
                } else if field.field_def == 5 {
                    msg.total_strokes = Some(field.get_u16());
                } else if field.field_def == 1 {
                    msg.event_type = Some(field.get_u8());
                } else if field.field_def == 9 {
                    msg.avg_swimming_cadence = Some(field.get_u8());
                } else if field.field_def == 10 {
                    msg.event_group = Some(field.get_u8());
                } else if field.field_def == 6 {
                    msg.avg_speed = Some(field.get_u16());
                }
            }
            i = i + 1;
        }
        proof {
            assert(fv.take(n as int) =~= fv);
        }
        msg
    }
}

/// A named view of one event message.
#[derive(Clone, Debug)]
pub struct FitEventMsg {
    pub event_group: Option<u8>,
    pub rear_gear: Option<u8>,
    pub data16: Option<u16>,
    pub event: Option<u8>,
    pub rear_gear_num: Option<u8>,
    pub score: Option<u16>,
    pub data: Option<u32>,
    pub radar_threat_level_max: Option<u8>,
    pub front_gear: Option<u8>,
    pub device_index: Option<u8>,
    pub opponent_score: Option<u16>,
    pub timestamp: Option<u32>,
    pub event_type: Option<u8>,
    pub radar_threat_count: Option<u8>,
    pub front_gear_num: Option<u8>,
}

impl FitEventMsg {
    /// Files the decoded fields of one data record under their names;
    /// for a field number seen more than once the last value wins, and
    /// unknown and developer fields are passed over.
    pub fn new(fields: Vec<FitFieldValue>) -> (msg: Self)
        ensures
            msg.event_group == spec_msg_u8(spec_fields_view(fields@), 4),
            msg.rear_gear == spec_msg_u8(spec_fields_view(fields@), 12),
            msg.data16 == spec_msg_u16(spec_fields_view(fields@), 2),
            msg.event == spec_msg_u8(spec_fields_view(fields@), 0),
            msg.rear_gear_num == spec_msg_u8(spec_fields_view(fields@), 11),
            msg.score == spec_msg_u16(spec_fields_view(fields@), 7),
            msg.data == spec_msg_u32(spec_fields_view(fields@), 3),
            msg.radar_threat_level_max == spec_msg_u8(spec_fields_view(fields@), 21),
            msg.front_gear == spec_msg_u8(spec_fields_view(fields@), 10),
            msg.device_index == spec_msg_u8(spec_fields_view(fields@), 13),
            msg.opponent_score == spec_msg_u16(spec_fields_view(fields@), 8),
            msg.timestamp == spec_msg_u32(spec_fields_view(fields@), 253),
            msg.event_type == spec_msg_u8(spec_fields_view(fields@), 1),
            msg.radar_threat_count == spec_msg_u8(spec_fields_view(fields@), 22),
            msg.front_gear_num == spec_msg_u8(spec_fields_view(fields@), 9),
    {
        let ghost fv = spec_fields_view(fields@);
        let mut msg = FitEventMsg { event_group: None, rear_gear: None, data16: None, event: None, rear_gear_num: None, score: None, data: None, radar_threat_level_max: None, front_gear: None, device_index: None, opponent_score: None, timestamp: None, event_type: None, radar_threat_count: None, front_gear_num: None };
        proof {
            assert(fv.take(0) =~= Seq::<SpecFieldValue>::empty());
        }
        let n = fields.len();
        let mut i: usize = 0;
        while i < n
            invariant
                i <= n,
                n == fields@.len(),
                fv == spec_fields_view(fields@),
                msg.event_group == spec_msg_u8(fv.take(i as int), 4),
                msg.rear_gear == spec_msg_u8(fv.take(i as int), 12),
                msg.data16 == spec_msg_u16(fv.take(i as int), 2),
                msg.event == spec_msg_u8(fv.take(i as int), 0),
                msg.rear_gear_num == spec_msg_u8(fv.take(i as int), 11),
                msg.score == spec_msg_u16(fv.take(i as int), 7),
                msg.data == spec_msg_u32(fv.take(i as int), 3),
                msg.radar_threat_level_max == spec_msg_u8(fv.take(i as int), 21),
                msg.front_gear == spec_msg_u8(fv.take(i as int), 10),
                msg.device_index == spec_msg_u8(fv.take(i as int), 13),
                msg.opponent_score == spec_msg_u16(fv.take(i as int), 8),
                msg.timestamp == spec_msg_u32(fv.take(i as int), 253),
                msg.event_type == spec_msg_u8(fv.take(i as int), 1),
                msg.radar_threat_count == spec_msg_u8(fv.take(i as int), 22),
                msg.front_gear_num == spec_msg_u8(fv.take(i as int), 9),
            decreases n - i,
        {
            let field = &fields[i];
            proof {
                lemma_msg_field_step(fv, i as int);
                assert(fv[i as int] == fields@[i as int]@);
            }
            if !field.is_dev_field {
                if field.field_def == 4 {
                    msg.event_group = Some(field.get_u8());
                } else if field.field_def == 12 {
                    msg.rear_gear = Some(field.get_u8());
                } else if field.field_def == 2 {
                    msg.data16 = Some(field.get_u16());
                } else if field.field_def == 0 {
                    msg.event = Some(field.get_u8());
                } else if field.field_def == 11 {
                    msg.rear_gear_num = Some(field.get_u8());
                } else if field.field_def == 7 {
                    msg.score = Some(field.get_u16());
                } else if field.field_def == 3 {
                    msg.data = Some(field.get_u32());
                } else if field.field_def == 21 {
                    msg.radar_threat_level_max = Some(field.get_u8());
                } else if field.field_def == 10 {
                    msg.front_gear = Some(field.get_u8());
                } else if field.field_def == 13 {
                    msg.device_index = Some(field.get_u8());
                } else if field.field_def == 8 {
                    msg.opponent_score = Some(field.get_u16());
                } else if field.field_def == 253 {
                    msg.timestamp = Some(field.get_u32());
                } else if field.field_def == 1 {
                    msg.event_type = Some(field.get_u8());
                } else if field.field_def == 22 {
                    msg.radar_threat_count = Some(field.get_u8());
                } else if field.field_def == 9 {
                    msg.front_gear_num = Some(field.get_u8());
                }
            }
            i = i + 1;
        }
        proof {
            assert(fv.take(n as int) =~= fv);
        }
        msg
    }
}

/// A named view of one workout message.
#[derive(Clone, Debug, PartialEq)]
pub struct FitWorkoutMsg {
    pub message_index: Option<u16>,
    pub sport: Option<u8>,
    pub capabilities: Option<u32>,
    pub num_valid_steps: Option<u16>,
    pub workout_name: Option<String>,
    pub sub_sport: Option<u8>,
    pub pool_length: Option<u16>,
    pub pool_length_unit: Option<u8>,
}

impl FitWorkoutMsg {
    /// Files the decoded fields of one data record under their names;
    /// for a field number seen more than once the last value wins, and
    /// unknown and developer fields are passed over.
    pub fn new(fields: Vec<FitFieldValue>) -> (msg: Self)
        ensures
            msg.message_index == spec_msg_u16(spec_fields_view(fields@), 254),
            msg.sport == spec_msg_u8(spec_fields_view(fields@), 4),
            msg.capabilities == spec_msg_u32(spec_fields_view(fields@), 5),
            msg.num_valid_steps == spec_msg_u16(spec_fields_view(fields@), 6),
            spec_opt_string_view(msg.workout_name) == spec_msg_string(spec_fields_view(fields@), 8),
            msg.sub_sport == spec_msg_u8(spec_fields_view(fields@), 11),
            msg.pool_length == spec_msg_u16(spec_fields_view(fields@), 14),
            msg.pool_length_unit == spec_msg_u8(spec_fields_view(fields@), 15),
    {
        let ghost fv = spec_fields_view(fields@);
        let mut msg = FitWorkoutMsg { message_index: None, sport: None, capabilities: None, num_valid_steps: None, workout_name: None, sub_sport: None, pool_length: None, pool_length_unit: None };
        proof {
            assert(fv.take(0) =~= Seq::<SpecFieldValue>::empty());
        }
        let n = fields.len();
        let mut i: usize = 0;
        while i < n
            invariant
                i <= n,
                n == fields@.len(),
                fv == spec_fields_view(fields@),
                msg.message_index == spec_msg_u16(fv.take(i as int), 254),
                msg.sport == spec_msg_u8(fv.take(i as int), 4),
                msg.capabilities == spec_msg_u32(fv.take(i as int), 5),
                msg.num_valid_steps == spec_msg_u16(fv.take(i as int), 6),
                spec_opt_string_view(msg.workout_name) == spec_msg_string(fv.take(i as int), 8),
                msg.sub_sport == spec_msg_u8(fv.take(i as int), 11),
                msg.pool_length == spec_msg_u16(fv.take(i as int), 14),
                msg.pool_length_unit == spec_msg_u8(fv.take(i as int), 15),
            decreases n - i,
        {
            let field = &fields[i];
            proof {
                lemma_msg_field_step(fv, i as int);
                assert(fv[i as int] == fields@[i as int]@);
            }
            if !field.is_dev_field {
                if field.field_def == 254 {
                    msg.message_index = Some(field.get_u16());
                } else if field.field_def == 4 {
                    msg.sport = Some(field.get_u8());
                } else if field.field_def == 5 {
                    msg.capabilities = Some(field.get_u32());
                } else if field.field_def == 6 {
                    msg.num_valid_steps = Some(field.get_u16());
                } else if field.field_def == 8 {
                    msg.workout_name = Some(field.value_string.clone());
                } else if field.field_def == 11 {
                    msg.sub_sport = Some(field.get_u8());
                } else if field.field_def == 14 {
                    msg.pool_length = Some(field.get_u16());
                } else if field.field_def == 15 {
                    msg.pool_length_unit = Some(field.get_u8());
                }
            }
            i = i + 1;
        }
        proof {
            assert(fv.take(n as int) =~= fv);
        }
        msg
    }
}

/// A named view of one workout-step message.
#[derive(Clone, Debug, PartialEq)]
pub struct FitWorkoutStepMsg {
    /// The message index the record was delivered with.
    pub message_index: u16,
    pub step_name: Option<String>,
    pub duration_type: Option<u8>,
    pub duration_value: Option<u32>,
    pub target_type: Option<u8>,
    pub target_value: Option<u32>,
    pub custom_target_low: Option<u32>,
    pub custom_target_high: Option<u32>,
    pub intensity: Option<u8>,
    pub notes: Option<String>,
    pub equipment: Option<u8>,
    pub secondary_target_type: Option<u8>,
    pub secondary_target_value: Option<u32>,
    pub secondary_custom_target_low: Option<u32>,
    pub secondary_custom_target_high: Option<u32>,
}

impl FitWorkoutStepMsg {
    /// Files the decoded fields of one data record under their names;
    /// for a field number seen more than once the last value wins, and
    /// unknown and developer fields are passed over.
    pub fn new(message_index: u16, fields: Vec<FitFieldValue>) -> (msg: Self)
        ensures
            msg.message_index == message_index,
            spec_opt_string_view(msg.step_name) == spec_msg_string(spec_fields_view(fields@), 0),
            msg.duration_type == spec_msg_u8(spec_fields_view(fields@), 1),
            msg.duration_value == spec_msg_u32(spec_fields_view(fields@), 2),
            msg.target_type == spec_msg_u8(spec_fields_view(fields@), 3),
            msg.target_value == spec_msg_u32(spec_fields_view(fields@), 4),
            msg.custom_target_low == spec_msg_u32(spec_fields_view(fields@), 5),
            msg.custom_target_high == spec_msg_u32(spec_fields_view(fields@), 6),
            msg.intensity == spec_msg_u8(spec_fields_view(fields@), 7),
            spec_opt_string_view(msg.notes) == spec_msg_string(spec_fields_view(fields@), 8),
            msg.equipment == spec_msg_u8(spec_fields_view(fields@), 9),
            msg.secondary_target_type == spec_msg_u8(spec_fields_view(fields@), 19),
            msg.secondary_target_value == spec_msg_u32(spec_fields_view(fields@), 20),
            msg.secondary_custom_target_low == spec_msg_u32(spec_fields_view(fields@), 21),
            msg.secondary_custom_target_high == spec_msg_u32(spec_fields_view(fields@), 22),
    {
        let ghost fv = spec_fields_view(fields@);
        let mut msg = FitWorkoutStepMsg { message_index, step_name: None, duration_type: None, duration_value: None, target_type: None, target_value: None, custom_target_low: None, custom_target_high: None, intensity: None, notes: None, equipment: None, secondary_target_type: None, secondary_target_value: None, secondary_custom_target_low: None, secondary_custom_target_high: None };
        proof {
            assert(fv.take(0) =~= Seq::<SpecFieldValue>::empty());
        }
        let n = fields.len();
        let mut i: usize = 0;
        while i < n
            invariant
                i <= n,
                n == fields@.len(),
                fv == spec_fields_view(fields@),
                msg.message_index == message_index,
                spec_opt_string_view(msg.step_name) == spec_msg_string(fv.take(i as int), 0),
                msg.duration_type == spec_msg_u8(fv.take(i as int), 1),
                msg.duration_value == spec_msg_u32(fv.take(i as int), 2),
                msg.target_type == spec_msg_u8(fv.take(i as int), 3),
                msg.target_value == spec_msg_u32(fv.take(i as int), 4),
                msg.custom_target_low == spec_msg_u32(fv.take(i as int), 5),
                msg.custom_target_high == spec_msg_u32(fv.take(i as int), 6),
                msg.intensity == spec_msg_u8(fv.take(i as int), 7),
                spec_opt_string_view(msg.notes) == spec_msg_string(fv.take(i as int), 8),
                msg.equipment == spec_msg_u8(fv.take(i as int), 9),
                msg.secondary_target_type == spec_msg_u8(fv.take(i as int), 19),
                msg.secondary_target_value == spec_msg_u32(fv.take(i as int), 20),
                msg.secondary_custom_target_low == spec_msg_u32(fv.take(i as int), 21),
                msg.secondary_custom_target_high == spec_msg_u32(fv.take(i as int), 22),
            decreases n - i,
        {
            let field = &fields[i];
            proof {
                lemma_msg_field_step(fv, i as int);
                assert(fv[i as int] == fields@[i as int]@);
            }
            if !field.is_dev_field {
                if field.field_def == 0 {
                    msg.step_name = Some(field.value_string.clone());
                } else if field.field_def == 1 {
                    msg.duration_type = Some(field.get_u8());
                } else if field.field_def == 2 {
                    msg.duration_value = Some(field.get_u32());
                } else if field.field_def == 3 {
                    msg.target_type = Some(field.get_u8());
                } else if field.field_def == 4 {
                    msg.target_value = Some(field.get_u32());
                } else if field.field_def == 5 {
                    msg.custom_target_low = Some(field.get_u32());
                } else if field.field_def == 6 {
                    msg.custom_target_high = Some(field.get_u32());
                } else if field.field_def == 7 {
                    msg.intensity = Some(field.get_u8());
                } else if field.field_def == 8 {
                    msg.notes = Some(field.value_string.clone());
                } else if field.field_def == 9 {
                    msg.equipment = Some(field.get_u8());
                } else if field.field_def == 19 {
                    msg.secondary_target_type = Some(field.get_u8());
                } else if field.field_def == 20 {
                    msg.secondary_target_value = Some(field.get_u32());
                } else if field.field_def == 21 {
                    msg.secondary_custom_target_low = Some(field.get_u32());
                } else if field.field_def == 22 {
                    msg.secondary_custom_target_high = Some(field.get_u32());
                }
            }
            i = i + 1;
        }
        proof {
            assert(fv.take(n as int) =~= fv);
        }
        msg
    }
}

} // verus!
