//! Human-readable names for the well-known global message numbers and sport
//! codes. These tables are lookup data for presentation only: the decoder
//! never consults them, and works just as well for message kinds they do not
//! know.

use vstd::prelude::*;
use std::collections::HashMap;
use crate::profile::{
    FIT_SPORT_ALL,
    FIT_SPORT_ALPINE_SKIING,
    FIT_SPORT_AMERICAN_FOOTBALL,
    FIT_SPORT_BASKETBALL,
    FIT_SPORT_BOATING,
    FIT_SPORT_BOXING,
    FIT_SPORT_CROSS_COUNTRY_SKIING,
    FIT_SPORT_CYCLING,
    FIT_SPORT_DIVING,
    FIT_SPORT_DRIVING,
    FIT_SPORT_E_BIKING,
    FIT_SPORT_FISHING,
    FIT_SPORT_FITNESS_EQUIPMENT,
    FIT_SPORT_FLOOR_CLIMBING,
    FIT_SPORT_FLYING,
    FIT_SPORT_GENERIC,
    FIT_SPORT_GOLF,
    FIT_SPORT_HANG_GLIDING,
    FIT_SPORT_HIKING,
    FIT_SPORT_HORSEBACK_RIDING,
    FIT_SPORT_HUNTING,
    FIT_SPORT_ICE_SKATING,
    FIT_SPORT_INLINE_SKATING,
    FIT_SPORT_JUMPMASTER,
    FIT_SPORT_KAYAKING,
    FIT_SPORT_KITESURFING,
    FIT_SPORT_MOTORCYCLING,
    FIT_SPORT_MOUNTAINEERING,
    FIT_SPORT_MULTISPORT,
    FIT_SPORT_PADDLING,
    FIT_SPORT_RAFTING,
    FIT_SPORT_ROCK_CLIMBING,
    FIT_SPORT_ROWING,
    FIT_SPORT_RUNNING,
    FIT_SPORT_SAILING,
    FIT_SPORT_SKY_DIVING,
    FIT_SPORT_SNOWBOARDING,
    FIT_SPORT_SNOWMOBILING,
    FIT_SPORT_SNOWSHOEING,
    FIT_SPORT_SOCCER,
    FIT_SPORT_STAND_UP_PADDLEBOARDING,
    FIT_SPORT_SURFING,
    FIT_SPORT_SWIMMING,
    FIT_SPORT_TACTICAL,
    FIT_SPORT_TENNIS,
    FIT_SPORT_TRAINING,
    FIT_SPORT_TRANSITION,
    FIT_SPORT_WAKEBOARDING,
    FIT_SPORT_WALKING,
    FIT_SPORT_WATER_SKIING,
    FIT_SPORT_WINDSURFING,
    GLOBAL_MSG_NUM_ACCELEROMETER_DATA,
    GLOBAL_MSG_NUM_ACTIVITY,
    GLOBAL_MSG_NUM_ANT_CHANNEL_ID,
    GLOBAL_MSG_NUM_ANT_RX,
    GLOBAL_MSG_NUM_ANT_TX,
    GLOBAL_MSG_NUM_AVIATION_ATTITUDE,
    GLOBAL_MSG_NUM_BAROMETER_DATA,
    GLOBAL_MSG_NUM_BIKE_PROFILE,
    GLOBAL_MSG_NUM_BLOOD_PRESSURE,
    GLOBAL_MSG_NUM_CADENCE_ZONE,
    GLOBAL_MSG_NUM_CAMERA_EVENT,
    GLOBAL_MSG_NUM_CAPABILITIES,
    GLOBAL_MSG_NUM_CLIMB_PRO,
    GLOBAL_MSG_NUM_CONNECTIVITY,
    GLOBAL_MSG_NUM_COURSE,
    GLOBAL_MSG_NUM_COURSE_POINT,
    GLOBAL_MSG_NUM_DEVELOPER_DATA_ID,
    GLOBAL_MSG_NUM_DEVICE_INFO,
    GLOBAL_MSG_NUM_DEVICE_SETTINGS,
    GLOBAL_MSG_NUM_DIVE_ALARM,
    GLOBAL_MSG_NUM_DIVE_GAS,
    GLOBAL_MSG_NUM_DIVE_SETTINGS,
    GLOBAL_MSG_NUM_DIVE_SUMMARY,
    GLOBAL_MSG_NUM_EVENT,
    GLOBAL_MSG_NUM_EXD_DATA_CONCEPT_CONFIGURATION,
    GLOBAL_MSG_NUM_EXD_DATA_FIELD_CONFIGURATION,
    GLOBAL_MSG_NUM_EXD_SCREEN_CONFIGURATION,
    GLOBAL_MSG_NUM_EXERCISE_TITLE,
    GLOBAL_MSG_NUM_FIELD_CAPABILITIES,
    GLOBAL_MSG_NUM_FIELD_DESCRIPTION,
    GLOBAL_MSG_NUM_FILE_CAPABILITIES,
    GLOBAL_MSG_NUM_FILE_CREATOR,
    GLOBAL_MSG_NUM_FILE_ID,
    GLOBAL_MSG_NUM_GOAL,
    GLOBAL_MSG_NUM_GPS_METADATA,
    GLOBAL_MSG_NUM_GYROSCOPE_DATA,
    GLOBAL_MSG_NUM_HR,
    GLOBAL_MSG_NUM_HRM_PROFILE,
    GLOBAL_MSG_NUM_HRV,
    GLOBAL_MSG_NUM_HR_ZONE,
    GLOBAL_MSG_NUM_JUMP,
    GLOBAL_MSG_NUM_LAP,
    GLOBAL_MSG_NUM_LENGTH,
    GLOBAL_MSG_NUM_MAGNETOMETER_DATA,
    GLOBAL_MSG_NUM_MEMO_GLOB,
    GLOBAL_MSG_NUM_MESG_CAPABILITIES,
    GLOBAL_MSG_NUM_MET_ZONE,
    GLOBAL_MSG_NUM_MONITORING,
    GLOBAL_MSG_NUM_MONITORING_INFO,
    GLOBAL_MSG_NUM_NMEA_SENTENCE,
    GLOBAL_MSG_NUM_OBDII_DATA,
    GLOBAL_MSG_NUM_OHR_SETTINGS,
    GLOBAL_MSG_NUM_ONE_D_SENSOR_CALIBRATION,
    GLOBAL_MSG_NUM_PAD,
    GLOBAL_MSG_NUM_POWER_ZONE,
    GLOBAL_MSG_NUM_RECORD,
    GLOBAL_MSG_NUM_SCHEDULE,
    GLOBAL_MSG_NUM_SDM_PROFILE,
    GLOBAL_MSG_NUM_SEGMENT_FILE,
    GLOBAL_MSG_NUM_SEGMENT_ID,
    GLOBAL_MSG_NUM_SEGMENT_LAP,
    GLOBAL_MSG_NUM_SEGMENT_LEADERBOARD_ENTRY,
    GLOBAL_MSG_NUM_SEGMENT_POINT,
    GLOBAL_MSG_NUM_SESSION,
    GLOBAL_MSG_NUM_SET,
    GLOBAL_MSG_NUM_SLAVE_DEVICE,
    GLOBAL_MSG_NUM_SOFTWARE,
    GLOBAL_MSG_NUM_SPEED_ZONE,
    GLOBAL_MSG_NUM_SPORT,
    GLOBAL_MSG_NUM_STRESS_LEVEL,
    GLOBAL_MSG_NUM_THREE_D_SENSOR_CALIBRATION,
    GLOBAL_MSG_NUM_TIMESTAMP_CORRELATION,
    GLOBAL_MSG_NUM_TOTALS,
    GLOBAL_MSG_NUM_TRAINING_FILE,
    GLOBAL_MSG_NUM_USER_PROFILE,
    GLOBAL_MSG_NUM_VIDEO,
    GLOBAL_MSG_NUM_VIDEO_CLIP,
    GLOBAL_MSG_NUM_VIDEO_DESCRIPTION,
    GLOBAL_MSG_NUM_VIDEO_FRAME,
    GLOBAL_MSG_NUM_VIDEO_TITLE,
    GLOBAL_MSG_NUM_WATCHFACE_SETTINGS,
    GLOBAL_MSG_NUM_WEATHER_ALERT,
    GLOBAL_MSG_NUM_WEATHER_CONDITIONS,
    GLOBAL_MSG_NUM_WEIGHT_SCALE,
    GLOBAL_MSG_NUM_WORKOUT,
    GLOBAL_MSG_NUM_WORKOUT_SESSION,
    GLOBAL_MSG_NUM_WORKOUT_STEP,
    GLOBAL_MSG_NUM_ZONES_TARGET,
};

verus! {

broadcast use vstd::std_specs::hash::group_hash_axioms;

/// The display name of a well-known global message number, if any.
pub open spec fn spec_global_msg_name(num: u16) -> Option<Seq<char>> {
    if num == GLOBAL_MSG_NUM_FILE_ID {
        Some("File ID"@)
    } else if num == GLOBAL_MSG_NUM_CAPABILITIES {
        Some("Capabilities"@)
    } else if num == GLOBAL_MSG_NUM_DEVICE_SETTINGS {
        Some("Device Settings"@)
    } else if num == GLOBAL_MSG_NUM_USER_PROFILE {
        Some("User Profile"@)
    } else if num == GLOBAL_MSG_NUM_HRM_PROFILE {
        Some("HRM Profile"@)
    } else if num == GLOBAL_MSG_NUM_SDM_PROFILE {
        Some("SDM Profile"@)
    } else if num == GLOBAL_MSG_NUM_BIKE_PROFILE {
        Some("Bike Profile"@)
    } else if num == GLOBAL_MSG_NUM_ZONES_TARGET {
        Some("Zones Target"@)
    } else if num == GLOBAL_MSG_NUM_HR_ZONE {
        Some("HR Zone"@)
    } else if num == GLOBAL_MSG_NUM_POWER_ZONE {
        Some("Power Zone"@)
    } else if num == GLOBAL_MSG_NUM_MET_ZONE {
        Some("MET Zone"@)
    } else if num == GLOBAL_MSG_NUM_SPORT {
        Some("Sport"@)
    } else if num == GLOBAL_MSG_NUM_GOAL {
        Some("Goal"@)
    } else if num == GLOBAL_MSG_NUM_SESSION {
        Some("Session"@)
    } else if num == GLOBAL_MSG_NUM_LAP {
        Some("Lap"@)
    } else if num == GLOBAL_MSG_NUM_RECORD {
        Some("Record"@)
    } else if num == GLOBAL_MSG_NUM_EVENT {
        Some("Event"@)
    } else if num == GLOBAL_MSG_NUM_DEVICE_INFO {
        Some("Device Info"@)
    } else if num == GLOBAL_MSG_NUM_WORKOUT {
        Some("Workout"@)
    } else if num == GLOBAL_MSG_NUM_WORKOUT_STEP {
        Some("Workout Step"@)
    } else if num == GLOBAL_MSG_NUM_SCHEDULE {
        Some("Schedule"@)
    } else if num == GLOBAL_MSG_NUM_WEIGHT_SCALE {
        Some("Weight Scale"@)
    } else if num == GLOBAL_MSG_NUM_COURSE {
        Some("Course"@)
    } else if num == GLOBAL_MSG_NUM_COURSE_POINT {
        Some("Course Point"@)
    } else if num == GLOBAL_MSG_NUM_TOTALS {
        Some("Totals"@)
    } else if num == GLOBAL_MSG_NUM_ACTIVITY {
        Some("Activity"@)
    } else if num == GLOBAL_MSG_NUM_SOFTWARE {
        Some("Software"@)
    } else if num == GLOBAL_MSG_NUM_FILE_CAPABILITIES {
        Some("File Capabilities"@)
    } else if num == GLOBAL_MSG_NUM_MESG_CAPABILITIES {
        Some("Message Capabilities"@)
    } else if num == GLOBAL_MSG_NUM_FIELD_CAPABILITIES {
        Some("Field Capabilities"@)
    } else if num == GLOBAL_MSG_NUM_FILE_CREATOR {
        Some("File Creator"@)
    } else if num == GLOBAL_MSG_NUM_BLOOD_PRESSURE {
        Some("Blood Pressure"@)
    } else if num == GLOBAL_MSG_NUM_SPEED_ZONE {
        Some("Speed Zone"@)
    } else if num == GLOBAL_MSG_NUM_MONITORING {
        Some("Monitoring"@)
    } else if num == GLOBAL_MSG_NUM_TRAINING_FILE {
        Some("Training File"@)
    } else if num == GLOBAL_MSG_NUM_HRV {
        Some("HRV"@)
    } else if num == GLOBAL_MSG_NUM_ANT_RX {
        Some("ANT RX"@)
    } else if num == GLOBAL_MSG_NUM_ANT_TX {
        Some("ANT TX"@)
    } else if num == GLOBAL_MSG_NUM_ANT_CHANNEL_ID {
        Some("ANT Channel ID"@)
    } else if num == GLOBAL_MSG_NUM_LENGTH {
        Some("Length"@)
    } else if num == GLOBAL_MSG_NUM_MONITORING_INFO {
        Some("Monitoring Info"@)
    } else if num == GLOBAL_MSG_NUM_PAD {
        Some("Pad"@)
    } else if num == GLOBAL_MSG_NUM_SLAVE_DEVICE {
        Some("Slave Device"@)
    } else if num == GLOBAL_MSG_NUM_CONNECTIVITY {
        Some("Connectivity"@)
    } else if num == GLOBAL_MSG_NUM_WEATHER_CONDITIONS {
        Some("Weather"@)
    } else if num == GLOBAL_MSG_NUM_WEATHER_ALERT {
        Some("Weather Alert"@)
    } else if num == GLOBAL_MSG_NUM_CADENCE_ZONE {
        Some("Cadence Zone"@)
    } else if num == GLOBAL_MSG_NUM_HR {
        Some("HR"@)
    } else if num == GLOBAL_MSG_NUM_SEGMENT_LAP {
        Some("Segment Lap"@)
    } else if num == GLOBAL_MSG_NUM_MEMO_GLOB {
        Some("Memo Glob"@)
    } else if num == GLOBAL_MSG_NUM_SEGMENT_ID {
        Some("Segment ID"@)
    } else if num == GLOBAL_MSG_NUM_SEGMENT_LEADERBOARD_ENTRY {
        Some("Segment Leaderboard Entry"@)
    } else if num == GLOBAL_MSG_NUM_SEGMENT_POINT {
        Some("Segment Point"@)
    } else if num == GLOBAL_MSG_NUM_SEGMENT_FILE {
        Some("Segment File"@)
    } else if num == GLOBAL_MSG_NUM_WORKOUT_SESSION {
        Some("Workout Session"@)
    } else if num == GLOBAL_MSG_NUM_WATCHFACE_SETTINGS {
        Some("Watch Face Settings"@)
    } else if num == GLOBAL_MSG_NUM_GPS_METADATA {
        Some("GPS Metadata"@)
    } else if num == GLOBAL_MSG_NUM_CAMERA_EVENT {
        Some("Camera Event"@)
    } else if num == GLOBAL_MSG_NUM_TIMESTAMP_CORRELATION {
        Some("Timestamp Correlation"@)
    } else if num == GLOBAL_MSG_NUM_GYROSCOPE_DATA {
        Some("Cyroscope Data"@)
    } else if num == GLOBAL_MSG_NUM_ACCELEROMETER_DATA {
        Some("Accelerometer Data"@)
    } else if num == GLOBAL_MSG_NUM_THREE_D_SENSOR_CALIBRATION {
        Some("3D Sensor Calibration"@)
    } else if num == GLOBAL_MSG_NUM_VIDEO_FRAME {
        Some("Video Frame"@)
    } else if num == GLOBAL_MSG_NUM_OBDII_DATA {
        Some("OBDII Data"@)
    } else if num == GLOBAL_MSG_NUM_NMEA_SENTENCE {
        Some("NMEA Sentence"@)
    } else if num == GLOBAL_MSG_NUM_AVIATION_ATTITUDE {
        Some("Aviation Attitude"@)
    } else if num == GLOBAL_MSG_NUM_VIDEO {
        Some("Video"@)
    } else if num == GLOBAL_MSG_NUM_VIDEO_TITLE {
        Some("Video Title"@)
    } else if num == GLOBAL_MSG_NUM_VIDEO_DESCRIPTION {
        Some("Video Description"@)
    } else if num == GLOBAL_MSG_NUM_VIDEO_CLIP {
        Some("Video Clip"@)
    } else if num == GLOBAL_MSG_NUM_OHR_SETTINGS {
        Some("OHR Settings"@)
    } else if num == GLOBAL_MSG_NUM_EXD_SCREEN_CONFIGURATION {
        Some("EXD Screen Configuration"@)
    } else if num == GLOBAL_MSG_NUM_EXD_DATA_FIELD_CONFIGURATION {
        Some("EXD Data Field Configuration"@)
    } else if num == GLOBAL_MSG_NUM_EXD_DATA_CONCEPT_CONFIGURATION {
        Some("EXD Data Concept Configuration"@)
    } else if num == GLOBAL_MSG_NUM_FIELD_DESCRIPTION {
        Some("Field Description"@)
    } else if num == GLOBAL_MSG_NUM_DEVELOPER_DATA_ID {
        Some("Developer Data ID"@)
    } else if num == GLOBAL_MSG_NUM_MAGNETOMETER_DATA {
        Some("Magnetometer Data"@)
    } else if num == GLOBAL_MSG_NUM_BAROMETER_DATA {
        Some("Barometer Data"@)
    } else if num == GLOBAL_MSG_NUM_ONE_D_SENSOR_CALIBRATION {
        Some("1D Sensor Calibration"@)
    } else if num == GLOBAL_MSG_NUM_SET {
        Some("Set"@)
    } else if num == GLOBAL_MSG_NUM_STRESS_LEVEL {
        Some("Stress Level"@)
    } else if num == GLOBAL_MSG_NUM_DIVE_SETTINGS {
        Some("Dive Settings"@)
    } else if num == GLOBAL_MSG_NUM_DIVE_GAS {
        Some("Dive Gas"@)
    } else if num == GLOBAL_MSG_NUM_DIVE_ALARM {
        Some("Dive Alarm"@)
    } else if num == GLOBAL_MSG_NUM_EXERCISE_TITLE {
        Some("Exercise Title"@)
    } else if num == GLOBAL_MSG_NUM_DIVE_SUMMARY {
        Some("Dive Summary"@)
    } else if num == GLOBAL_MSG_NUM_JUMP {
        Some("Jump"@)
    } else if num == GLOBAL_MSG_NUM_CLIMB_PRO {
        Some("Climb Pro"@)
    } else {
        None
    }
}

/// The display name of a sport code, if any.
pub open spec fn spec_sport_name(num: u8) -> Option<Seq<char>> {
    if num == FIT_SPORT_GENERIC {
        Some("Generic"@)
    } else if num == FIT_SPORT_RUNNING {
        Some("Running"@)
    } else if num == FIT_SPORT_CYCLING {
        Some("Cycling"@)
    } else if num == FIT_SPORT_TRANSITION {
        Some("Transition"@)
    } else if num == FIT_SPORT_FITNESS_EQUIPMENT {
        Some("Fitness Equipment"@)
    } else if num == FIT_SPORT_SWIMMING {
        Some("Swimming"@)
    } else if num == FIT_SPORT_BASKETBALL {
        Some("Basketball"@)
    } else if num == FIT_SPORT_SOCCER {
        Some("Soccer"@)
    } else if num == FIT_SPORT_TENNIS {
        Some("Tennis"@)
    } else if num == FIT_SPORT_AMERICAN_FOOTBALL {
        Some("American Football"@)
    } else if num == FIT_SPORT_TRAINING {
        Some("Training"@)
    } else if num == FIT_SPORT_WALKING {
        Some("Walking"@)
    } else if num == FIT_SPORT_CROSS_COUNTRY_SKIING {
        Some("Cross Country Skiing"@)
    } else if num == FIT_SPORT_ALPINE_SKIING {
        Some("Alpine Skiing"@)
    } else if num == FIT_SPORT_SNOWBOARDING {
        Some("Snowboarding"@)
    } else if num == FIT_SPORT_ROWING {
        Some("Rowing"@)
    } else if num == FIT_SPORT_MOUNTAINEERING {
        Some("Mountaineering"@)
    } else if num == FIT_SPORT_HIKING {
        Some("Hiking"@)
    } else if num == FIT_SPORT_MULTISPORT {
        Some("Multisport"@)
    } else if num == FIT_SPORT_PADDLING {
        Some("Paddling"@)
    } else if num == FIT_SPORT_FLYING {
        Some("Flying"@)
    } else if num == FIT_SPORT_E_BIKING {
        Some("E-Biking"@)
    } else if num == FIT_SPORT_MOTORCYCLING {
        Some("Motorcycling"@)
    } else if num == FIT_SPORT_BOATING {
        Some("Boating"@)
    } else if num == FIT_SPORT_DRIVING {
        Some("Driving"@)
    } else if num == FIT_SPORT_GOLF {
        Some("Golf"@)
    } else if num == FIT_SPORT_HANG_GLIDING {
        Some("Hang Gliding"@)
    } else if num == FIT_SPORT_HORSEBACK_RIDING {
        Some("Horseback Riding"@)
    } else if num == FIT_SPORT_HUNTING {
        Some("Hunting"@)
    } else if num == FIT_SPORT_FISHING {
        Some("Fishing"@)
    } else if num == FIT_SPORT_INLINE_SKATING {
        Some("Inline Skating"@)
    } else if num == FIT_SPORT_ROCK_CLIMBING {
        Some("Rock Climbing"@)
    } else if num == FIT_SPORT_SAILING {
        Some("Sailing"@)
    } else if num == FIT_SPORT_ICE_SKATING {
        Some("Ice Skating"@)
    } else if num == FIT_SPORT_SKY_DIVING {
        Some("Sky Diving"@)
    } else if num == FIT_SPORT_SNOWSHOEING {
        Some("Snowshoeing"@)
    } else if num == FIT_SPORT_SNOWMOBILING {
        Some("Snowmobiling"@)
    } else if num == FIT_SPORT_STAND_UP_PADDLEBOARDING {
        Some("Paddleboarding"@)
    } else if num == FIT_SPORT_SURFING {
        Some("Surfing"@)
    } else if num == FIT_SPORT_WAKEBOARDING {
        Some("Wakeboarding"@)
    } else if num == FIT_SPORT_WATER_SKIING {
        Some("Water Skiing"@)
    } else if num == FIT_SPORT_KAYAKING {
        Some("Kayaking"@)
    } else if num == FIT_SPORT_RAFTING {
        Some("Rafting"@)
    } else if num == FIT_SPORT_WINDSURFING {
        Some("Windsurfng"@)
    } else if num == FIT_SPORT_KITESURFING {
        Some("Kitesurfing"@)
    } else if num == FIT_SPORT_TACTICAL {
        Some("Tactical"@)
    } else if num == FIT_SPORT_JUMPMASTER {
        Some("Jumpmaster"@)
    } else if num == FIT_SPORT_BOXING {
        Some("Boxing"@)
    } else if num == FIT_SPORT_FLOOR_CLIMBING {
        Some("Floor Climbing"@)
    } else if num == FIT_SPORT_DIVING {
        Some("Diving"@)
    } else if num == FIT_SPORT_ALL {
        Some("All"@)
    } else {
        None
    }
}

/// Builds the table mapping each well-known global message number to its
/// display name: exactly the numbers `spec_global_msg_name` knows, each under
/// that name.
#[verifier::rlimit(100)]
pub fn init_global_msg_name_map() -> (r: HashMap<u16, String>)
    ensures
        forall|k: u16| #[trigger] r@.contains_key(k) <==> spec_global_msg_name(k) is Some,
        forall|k: u16| #[trigger] r@.contains_key(k) ==> Some(r@[k]@) == spec_global_msg_name(k),
{
    let mut m = HashMap::<u16, String>::new();
    m.insert(GLOBAL_MSG_NUM_FILE_ID, "File ID".to_owned());
    m.insert(GLOBAL_MSG_NUM_CAPABILITIES, "Capabilities".to_owned());
    m.insert(GLOBAL_MSG_NUM_DEVICE_SETTINGS, "Device Settings".to_owned());
    m.insert(GLOBAL_MSG_NUM_USER_PROFILE, "User Profile".to_owned());
    m.insert(GLOBAL_MSG_NUM_HRM_PROFILE, "HRM Profile".to_owned());
    m.insert(GLOBAL_MSG_NUM_SDM_PROFILE, "SDM Profile".to_owned());
    m.insert(GLOBAL_MSG_NUM_BIKE_PROFILE, "Bike Profile".to_owned());
    m.insert(GLOBAL_MSG_NUM_ZONES_TARGET, "Zones Target".to_owned());
    m.insert(GLOBAL_MSG_NUM_HR_ZONE, "HR Zone".to_owned());
    m.insert(GLOBAL_MSG_NUM_POWER_ZONE, "Power Zone".to_owned());
    m.insert(GLOBAL_MSG_NUM_MET_ZONE, "MET Zone".to_owned());
    m.insert(GLOBAL_MSG_NUM_SPORT, "Sport".to_owned());
    m.insert(GLOBAL_MSG_NUM_GOAL, "Goal".to_owned());
    m.insert(GLOBAL_MSG_NUM_SESSION, "Session".to_owned());
    m.insert(GLOBAL_MSG_NUM_LAP, "Lap".to_owned());
    m.insert(GLOBAL_MSG_NUM_RECORD, "Record".to_owned());
    m.insert(GLOBAL_MSG_NUM_EVENT, "Event".to_owned());
    m.insert(GLOBAL_MSG_NUM_DEVICE_INFO, "Device Info".to_owned());
    m.insert(GLOBAL_MSG_NUM_WORKOUT, "Workout".to_owned());
    m.insert(GLOBAL_MSG_NUM_WORKOUT_STEP, "Workout Step".to_owned());
    m.insert(GLOBAL_MSG_NUM_SCHEDULE, "Schedule".to_owned());
    m.insert(GLOBAL_MSG_NUM_WEIGHT_SCALE, "Weight Scale".to_owned());
    m.insert(GLOBAL_MSG_NUM_COURSE, "Course".to_owned());
    m.insert(GLOBAL_MSG_NUM_COURSE_POINT, "Course Point".to_owned());
    m.insert(GLOBAL_MSG_NUM_TOTALS, "Totals".to_owned());
    m.insert(GLOBAL_MSG_NUM_ACTIVITY, "Activity".to_owned());
    m.insert(GLOBAL_MSG_NUM_SOFTWARE, "Software".to_owned());
    m.insert(GLOBAL_MSG_NUM_FILE_CAPABILITIES, "File Capabilities".to_owned());
    m.insert(GLOBAL_MSG_NUM_MESG_CAPABILITIES, "Message Capabilities".to_owned());
    m.insert(GLOBAL_MSG_NUM_FIELD_CAPABILITIES, "Field Capabilities".to_owned());
    m.insert(GLOBAL_MSG_NUM_FILE_CREATOR, "File Creator".to_owned());
    m.insert(GLOBAL_MSG_NUM_BLOOD_PRESSURE, "Blood Pressure".to_owned());
    m.insert(GLOBAL_MSG_NUM_SPEED_ZONE, "Speed Zone".to_owned());
    m.insert(GLOBAL_MSG_NUM_MONITORING, "Monitoring".to_owned());
    m.insert(GLOBAL_MSG_NUM_TRAINING_FILE, "Training File".to_owned());
    m.insert(GLOBAL_MSG_NUM_HRV, "HRV".to_owned());
    m.insert(GLOBAL_MSG_NUM_ANT_RX, "ANT RX".to_owned());
    m.insert(GLOBAL_MSG_NUM_ANT_TX, "ANT TX".to_owned());
    m.insert(GLOBAL_MSG_NUM_ANT_CHANNEL_ID, "ANT Channel ID".to_owned());
    m.insert(GLOBAL_MSG_NUM_LENGTH, "Length".to_owned());
    m.insert(GLOBAL_MSG_NUM_MONITORING_INFO, "Monitoring Info".to_owned());
    m.insert(GLOBAL_MSG_NUM_PAD, "Pad".to_owned());
    m.insert(GLOBAL_MSG_NUM_SLAVE_DEVICE, "Slave Device".to_owned());
    m.insert(GLOBAL_MSG_NUM_CONNECTIVITY, "Connectivity".to_owned());
    m.insert(GLOBAL_MSG_NUM_WEATHER_CONDITIONS, "Weather".to_owned());
    m.insert(GLOBAL_MSG_NUM_WEATHER_ALERT, "Weather Alert".to_owned());
    m.insert(GLOBAL_MSG_NUM_CADENCE_ZONE, "Cadence Zone".to_owned());
    m.insert(GLOBAL_MSG_NUM_HR, "HR".to_owned());
    m.insert(GLOBAL_MSG_NUM_SEGMENT_LAP, "Segment Lap".to_owned());
    m.insert(GLOBAL_MSG_NUM_MEMO_GLOB, "Memo Glob".to_owned());
    m.insert(GLOBAL_MSG_NUM_SEGMENT_ID, "Segment ID".to_owned());
    m.insert(GLOBAL_MSG_NUM_SEGMENT_LEADERBOARD_ENTRY, "Segment Leaderboard Entry".to_owned());
    m.insert(GLOBAL_MSG_NUM_SEGMENT_POINT, "Segment Point".to_owned());
    m.insert(GLOBAL_MSG_NUM_SEGMENT_FILE, "Segment File".to_owned());
    m.insert(GLOBAL_MSG_NUM_WORKOUT_SESSION, "Workout Session".to_owned());
    m.insert(GLOBAL_MSG_NUM_WATCHFACE_SETTINGS, "Watch Face Settings".to_owned());
    m.insert(GLOBAL_MSG_NUM_GPS_METADATA, "GPS Metadata".to_owned());
    m.insert(GLOBAL_MSG_NUM_CAMERA_EVENT, "Camera Event".to_owned());
    m.insert(GLOBAL_MSG_NUM_TIMESTAMP_CORRELATION, "Timestamp Correlation".to_owned());
    m.insert(GLOBAL_MSG_NUM_GYROSCOPE_DATA, "Cyroscope Data".to_owned());
    m.insert(GLOBAL_MSG_NUM_ACCELEROMETER_DATA, "Accelerometer Data".to_owned());
    m.insert(GLOBAL_MSG_NUM_THREE_D_SENSOR_CALIBRATION, "3D Sensor Calibration".to_owned());
    m.insert(GLOBAL_MSG_NUM_VIDEO_FRAME, "Video Frame".to_owned());
    m.insert(GLOBAL_MSG_NUM_OBDII_DATA, "OBDII Data".to_owned());
    m.insert(GLOBAL_MSG_NUM_NMEA_SENTENCE, "NMEA Sentence".to_owned());
    m.insert(GLOBAL_MSG_NUM_AVIATION_ATTITUDE, "Aviation Attitude".to_owned());
    m.insert(GLOBAL_MSG_NUM_VIDEO, "Video".to_owned());
    m.insert(GLOBAL_MSG_NUM_VIDEO_TITLE, "Video Title".to_owned());
    m.insert(GLOBAL_MSG_NUM_VIDEO_DESCRIPTION, "Video Description".to_owned());
    m.insert(GLOBAL_MSG_NUM_VIDEO_CLIP, "Video Clip".to_owned());
    m.insert(GLOBAL_MSG_NUM_OHR_SETTINGS, "OHR Settings".to_owned());
    m.insert(GLOBAL_MSG_NUM_EXD_SCREEN_CONFIGURATION, "EXD Screen Configuration".to_owned());
    m.insert(GLOBAL_MSG_NUM_EXD_DATA_FIELD_CONFIGURATION, "EXD Data Field Configuration".to_owned());
    m.insert(GLOBAL_MSG_NUM_EXD_DATA_CONCEPT_CONFIGURATION, "EXD Data Concept Configuration".to_owned());
    m.insert(GLOBAL_MSG_NUM_FIELD_DESCRIPTION, "Field Description".to_owned());
    m.insert(GLOBAL_MSG_NUM_DEVELOPER_DATA_ID, "Developer Data ID".to_owned());
    m.insert(GLOBAL_MSG_NUM_MAGNETOMETER_DATA, "Magnetometer Data".to_owned());
    m.insert(GLOBAL_MSG_NUM_BAROMETER_DATA, "Barometer Data".to_owned());
    m.insert(GLOBAL_MSG_NUM_ONE_D_SENSOR_CALIBRATION, "1D Sensor Calibration".to_owned());
    m.insert(GLOBAL_MSG_NUM_SET, "Set".to_owned());
    m.insert(GLOBAL_MSG_NUM_STRESS_LEVEL, "Stress Level".to_owned());
    m.insert(GLOBAL_MSG_NUM_DIVE_SETTINGS, "Dive Settings".to_owned());
    m.insert(GLOBAL_MSG_NUM_DIVE_GAS, "Dive Gas".to_owned());
    m.insert(GLOBAL_MSG_NUM_DIVE_ALARM, "Dive Alarm".to_owned());
    m.insert(GLOBAL_MSG_NUM_EXERCISE_TITLE, "Exercise Title".to_owned());
    m.insert(GLOBAL_MSG_NUM_DIVE_SUMMARY, "Dive Summary".to_owned());
    m.insert(GLOBAL_MSG_NUM_JUMP, "Jump".to_owned());
    m.insert(GLOBAL_MSG_NUM_CLIMB_PRO, "Climb Pro".to_owned());
    m
}

/// Builds the table mapping each sport code to its display name: exactly the
/// codes `spec_sport_name` knows, each under that name.
#[verifier::rlimit(100)]
pub fn init_sport_name_map() -> (r: HashMap<u8, String>)
    ensures
        forall|k: u8| #[trigger] r@.contains_key(k) <==> spec_sport_name(k) is Some,
        forall|k: u8| #[trigger] r@.contains_key(k) ==> Some(r@[k]@) == spec_sport_name(k),
{
    let mut m = HashMap::<u8, String>::new();
    m.insert(FIT_SPORT_GENERIC, "Generic".to_owned());
    m.insert(FIT_SPORT_RUNNING, "Running".to_owned());
    m.insert(FIT_SPORT_CYCLING, "Cycling".to_owned());
    m.insert(FIT_SPORT_TRANSITION, "Transition".to_owned());
    m.insert(FIT_SPORT_FITNESS_EQUIPMENT, "Fitness Equipment".to_owned());
    m.insert(FIT_SPORT_SWIMMING, "Swimming".to_owned());
    m.insert(FIT_SPORT_BASKETBALL, "Basketball".to_owned());
    m.insert(FIT_SPORT_SOCCER, "Soccer".to_owned());
    m.insert(FIT_SPORT_TENNIS, "Tennis".to_owned());
    m.insert(FIT_SPORT_AMERICAN_FOOTBALL, "American Football".to_owned());
    m.insert(FIT_SPORT_TRAINING, "Training".to_owned());
    m.insert(FIT_SPORT_WALKING, "Walking".to_owned());
    m.insert(FIT_SPORT_CROSS_COUNTRY_SKIING, "Cross Country Skiing".to_owned());
    m.insert(FIT_SPORT_ALPINE_SKIING, "Alpine Skiing".to_owned());
    m.insert(FIT_SPORT_SNOWBOARDING, "Snowboarding".to_owned());
    m.insert(FIT_SPORT_ROWING, "Rowing".to_owned());
    m.insert(FIT_SPORT_MOUNTAINEERING, "Mountaineering".to_owned());
    m.insert(FIT_SPORT_HIKING, "Hiking".to_owned());
    m.insert(FIT_SPORT_MULTISPORT, "Multisport".to_owned());
    m.insert(FIT_SPORT_PADDLING, "Paddling".to_owned());
    m.insert(FIT_SPORT_FLYING, "Flying".to_owned());
    m.insert(FIT_SPORT_E_BIKING, "E-Biking".to_owned());
    m.insert(FIT_SPORT_MOTORCYCLING, "Motorcycling".to_owned());
    m.insert(FIT_SPORT_BOATING, "Boating".to_owned());
    m.insert(FIT_SPORT_DRIVING, "Driving".to_owned());
    m.insert(FIT_SPORT_GOLF, "Golf".to_owned());
    m.insert(FIT_SPORT_HANG_GLIDING, "Hang Gliding".to_owned());
    m.insert(FIT_SPORT_HORSEBACK_RIDING, "Horseback Riding".to_owned());
    m.insert(FIT_SPORT_HUNTING, "Hunting".to_owned());
    m.insert(FIT_SPORT_FISHING, "Fishing".to_owned());
    m.insert(FIT_SPORT_INLINE_SKATING, "Inline Skating".to_owned());
    m.insert(FIT_SPORT_ROCK_CLIMBING, "Rock Climbing".to_owned());
    m.insert(FIT_SPORT_SAILING, "Sailing".to_owned());
    m.insert(FIT_SPORT_ICE_SKATING, "Ice Skating".to_owned());
    m.insert(FIT_SPORT_SKY_DIVING, "Sky Diving".to_owned());
    m.insert(FIT_SPORT_SNOWSHOEING, "Snowshoeing".to_owned());
    m.insert(FIT_SPORT_SNOWMOBILING, "Snowmobiling".to_owned());
    m.insert(FIT_SPORT_STAND_UP_PADDLEBOARDING, "Paddleboarding".to_owned());
    m.insert(FIT_SPORT_SURFING, "Surfing".to_owned());
    m.insert(FIT_SPORT_WAKEBOARDING, "Wakeboarding".to_owned());
    m.insert(FIT_SPORT_WATER_SKIING, "Water Skiing".to_owned());
    m.insert(FIT_SPORT_KAYAKING, "Kayaking".to_owned());
    m.insert(FIT_SPORT_RAFTING, "Rafting".to_owned());
    m.insert(FIT_SPORT_WINDSURFING, "Windsurfng".to_owned());
    m.insert(FIT_SPORT_KITESURFING, "Kitesurfing".to_owned());
    m.insert(FIT_SPORT_TACTICAL, "Tactical".to_owned());
    m.insert(FIT_SPORT_JUMPMASTER, "Jumpmaster".to_owned());
    m.insert(FIT_SPORT_BOXING, "Boxing".to_owned());
    m.insert(FIT_SPORT_FLOOR_CLIMBING, "Floor Climbing".to_owned());
    m.insert(FIT_SPORT_DIVING, "Diving".to_owned());
    m.insert(FIT_SPORT_ALL, "All".to_owned());
    m
}

} // verus!
