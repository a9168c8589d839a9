//! Constants of the device profile: the well-known global message numbers,
//! file types, sport and sub-sport codes, base-type tags, and the workout
//! vocabulary. The decoder itself never consults these; they give callers
//! names for the numbers it hands out.

use vstd::prelude::*;

verus! {

// Global message numbers: the stable identifiers of message kinds, as set by definition records.
pub const GLOBAL_MSG_NUM_FILE_ID: u16 = 0;
pub const GLOBAL_MSG_NUM_CAPABILITIES: u16 = 1;
pub const GLOBAL_MSG_NUM_DEVICE_SETTINGS: u16 = 2;
pub const GLOBAL_MSG_NUM_USER_PROFILE: u16 = 3;
pub const GLOBAL_MSG_NUM_HRM_PROFILE: u16 = 4;
pub const GLOBAL_MSG_NUM_SDM_PROFILE: u16 = 5;
pub const GLOBAL_MSG_NUM_BIKE_PROFILE: u16 = 6;
pub const GLOBAL_MSG_NUM_ZONES_TARGET: u16 = 7;
pub const GLOBAL_MSG_NUM_HR_ZONE: u16 = 8;
pub const GLOBAL_MSG_NUM_POWER_ZONE: u16 = 9;
pub const GLOBAL_MSG_NUM_MET_ZONE: u16 = 10;
pub const GLOBAL_MSG_NUM_SPORT: u16 = 12;
pub const GLOBAL_MSG_NUM_GOAL: u16 = 15;
pub const GLOBAL_MSG_NUM_SESSION: u16 = 18;
pub const GLOBAL_MSG_NUM_LAP: u16 = 19;
pub const GLOBAL_MSG_NUM_RECORD: u16 = 20;
pub const GLOBAL_MSG_NUM_EVENT: u16 = 21;
pub const GLOBAL_MSG_NUM_DEVICE_INFO: u16 = 23;
pub const GLOBAL_MSG_NUM_WORKOUT: u16 = 26;
pub const GLOBAL_MSG_NUM_WORKOUT_STEP: u16 = 27;
pub const GLOBAL_MSG_NUM_SCHEDULE: u16 = 28;
pub const GLOBAL_MSG_NUM_WEIGHT_SCALE: u16 = 30;
pub const GLOBAL_MSG_NUM_COURSE: u16 = 31;
pub const GLOBAL_MSG_NUM_COURSE_POINT: u16 = 32;
pub const GLOBAL_MSG_NUM_TOTALS: u16 = 33;
pub const GLOBAL_MSG_NUM_ACTIVITY: u16 = 34;
pub const GLOBAL_MSG_NUM_SOFTWARE: u16 = 35;
pub const GLOBAL_MSG_NUM_FILE_CAPABILITIES: u16 = 37;
pub const GLOBAL_MSG_NUM_MESG_CAPABILITIES: u16 = 38;
pub const GLOBAL_MSG_NUM_FIELD_CAPABILITIES: u16 = 39;
pub const GLOBAL_MSG_NUM_FILE_CREATOR: u16 = 49;
pub const GLOBAL_MSG_NUM_BLOOD_PRESSURE: u16 = 51;
pub const GLOBAL_MSG_NUM_SPEED_ZONE: u16 = 53;
pub const GLOBAL_MSG_NUM_MONITORING: u16 = 55;
pub const GLOBAL_MSG_NUM_TRAINING_FILE: u16 = 72;
pub const GLOBAL_MSG_NUM_HRV: u16 = 78;
pub const GLOBAL_MSG_NUM_ANT_RX: u16 = 80;
pub const GLOBAL_MSG_NUM_ANT_TX: u16 = 81;
pub const GLOBAL_MSG_NUM_ANT_CHANNEL_ID: u16 = 82;
pub const GLOBAL_MSG_NUM_LENGTH: u16 = 101;
pub const GLOBAL_MSG_NUM_MONITORING_INFO: u16 = 103;
pub const GLOBAL_MSG_NUM_PAD: u16 = 105;
pub const GLOBAL_MSG_NUM_SLAVE_DEVICE: u16 = 106;
pub const GLOBAL_MSG_NUM_CONNECTIVITY: u16 = 127;
pub const GLOBAL_MSG_NUM_WEATHER_CONDITIONS: u16 = 128;
pub const GLOBAL_MSG_NUM_WEATHER_ALERT: u16 = 129;
pub const GLOBAL_MSG_NUM_CADENCE_ZONE: u16 = 131;
pub const GLOBAL_MSG_NUM_HR: u16 = 132;
pub const GLOBAL_MSG_NUM_SEGMENT_LAP: u16 = 142;
pub const GLOBAL_MSG_NUM_MEMO_GLOB: u16 = 145;
pub const GLOBAL_MSG_NUM_SEGMENT_ID: u16 = 148;
pub const GLOBAL_MSG_NUM_SEGMENT_LEADERBOARD_ENTRY: u16 = 149;
pub const GLOBAL_MSG_NUM_SEGMENT_POINT: u16 = 150;
pub const GLOBAL_MSG_NUM_SEGMENT_FILE: u16 = 151;
pub const GLOBAL_MSG_NUM_WORKOUT_SESSION: u16 = 158;
pub const GLOBAL_MSG_NUM_WATCHFACE_SETTINGS: u16 = 159;
pub const GLOBAL_MSG_NUM_GPS_METADATA: u16 = 160;
pub const GLOBAL_MSG_NUM_CAMERA_EVENT: u16 = 161;
pub const GLOBAL_MSG_NUM_TIMESTAMP_CORRELATION: u16 = 162;
pub const GLOBAL_MSG_NUM_GYROSCOPE_DATA: u16 = 164;
pub const GLOBAL_MSG_NUM_ACCELEROMETER_DATA: u16 = 165;
pub const GLOBAL_MSG_NUM_THREE_D_SENSOR_CALIBRATION: u16 = 167;
pub const GLOBAL_MSG_NUM_VIDEO_FRAME: u16 = 169;
pub const GLOBAL_MSG_NUM_OBDII_DATA: u16 = 174;
pub const GLOBAL_MSG_NUM_NMEA_SENTENCE: u16 = 177;
pub const GLOBAL_MSG_NUM_AVIATION_ATTITUDE: u16 = 178;
pub const GLOBAL_MSG_NUM_VIDEO: u16 = 184;
pub const GLOBAL_MSG_NUM_VIDEO_TITLE: u16 = 185;
pub const GLOBAL_MSG_NUM_VIDEO_DESCRIPTION: u16 = 186;
pub const GLOBAL_MSG_NUM_VIDEO_CLIP: u16 = 187;
pub const GLOBAL_MSG_NUM_OHR_SETTINGS: u16 = 188;
pub const GLOBAL_MSG_NUM_EXD_SCREEN_CONFIGURATION: u16 = 200;
pub const GLOBAL_MSG_NUM_EXD_DATA_FIELD_CONFIGURATION: u16 = 201;
pub const GLOBAL_MSG_NUM_EXD_DATA_CONCEPT_CONFIGURATION: u16 = 202;
pub const GLOBAL_MSG_NUM_FIELD_DESCRIPTION: u16 = 206;
pub const GLOBAL_MSG_NUM_DEVELOPER_DATA_ID: u16 = 207;
pub const GLOBAL_MSG_NUM_MAGNETOMETER_DATA: u16 = 208;
pub const GLOBAL_MSG_NUM_BAROMETER_DATA: u16 = 209;
pub const GLOBAL_MSG_NUM_ONE_D_SENSOR_CALIBRATION: u16 = 210;
pub const GLOBAL_MSG_NUM_SET: u16 = 225;
pub const GLOBAL_MSG_NUM_STRESS_LEVEL: u16 = 227;
pub const GLOBAL_MSG_NUM_DIVE_SETTINGS: u16 = 258;
pub const GLOBAL_MSG_NUM_DIVE_GAS: u16 = 259;
pub const GLOBAL_MSG_NUM_DIVE_ALARM: u16 = 262;
pub const GLOBAL_MSG_NUM_EXERCISE_TITLE: u16 = 264;
pub const GLOBAL_MSG_NUM_DIVE_SUMMARY: u16 = 268;
pub const GLOBAL_MSG_NUM_JUMP: u16 = 285;
pub const GLOBAL_MSG_NUM_CLIMB_PRO: u16 = 317;

// File types carried by the file-identity message.
pub const FIT_FILE_DEVICE: u8 = 1;
pub const FIT_FILE_SETTINGS: u8 = 2;
pub const FIT_FILE_SPORT: u8 = 3;
pub const FIT_FILE_ACTIVITY: u8 = 4;
pub const FIT_FILE_WORKOUT: u8 = 5;
pub const FIT_FILE_COURSE: u8 = 6;
pub const FIT_FILE_SCHEDULES: u8 = 7;
pub const FIT_FILE_WEIGHT: u8 = 9;
pub const FIT_FILE_TOTALS: u8 = 10;
pub const FIT_FILE_GOALS: u8 = 11;
pub const FIT_FILE_BLOOD_PRESSURE: u8 = 14;
pub const FIT_FILE_MONITORING_A: u8 = 15;
pub const FIT_FILE_ACTIVITY_SUMMARY: u8 = 20;
pub const FIT_FILE_MONITORING_DAILY: u8 = 28;
pub const FIT_FILE_MONITORING_B: u8 = 32;
pub const FIT_FILE_SEGMENT: u8 = 34;
pub const FIT_FILE_SEGMENT_LIST: u8 = 35;
pub const FIT_FILE_EXD_CONFIGURATION: u8 = 50;
pub const FIT_FILE_MFG_RANGE_MIN: u8 = 0xF7;
pub const FIT_FILE_MFG_RANGE_MAX: u8 = 0xFE;

// Sport codes.
pub const FIT_SPORT_GENERIC: u8 = 0;
pub const FIT_SPORT_RUNNING: u8 = 1;
pub const FIT_SPORT_CYCLING: u8 = 2;
pub const FIT_SPORT_TRANSITION: u8 = 3;
pub const FIT_SPORT_FITNESS_EQUIPMENT: u8 = 4;
pub const FIT_SPORT_SWIMMING: u8 = 5;
pub const FIT_SPORT_BASKETBALL: u8 = 6;
pub const FIT_SPORT_SOCCER: u8 = 7;
pub const FIT_SPORT_TENNIS: u8 = 8;
pub const FIT_SPORT_AMERICAN_FOOTBALL: u8 = 9;
pub const FIT_SPORT_TRAINING: u8 = 10;
pub const FIT_SPORT_WALKING: u8 = 11;
pub const FIT_SPORT_CROSS_COUNTRY_SKIING: u8 = 12;
pub const FIT_SPORT_ALPINE_SKIING: u8 = 13;
pub const FIT_SPORT_SNOWBOARDING: u8 = 14;
pub const FIT_SPORT_ROWING: u8 = 15;
pub const FIT_SPORT_MOUNTAINEERING: u8 = 16;
pub const FIT_SPORT_HIKING: u8 = 17;
pub const FIT_SPORT_MULTISPORT: u8 = 18;
pub const FIT_SPORT_PADDLING: u8 = 19;
pub const FIT_SPORT_FLYING: u8 = 20;
pub const FIT_SPORT_E_BIKING: u8 = 21;
pub const FIT_SPORT_MOTORCYCLING: u8 = 22;
pub const FIT_SPORT_BOATING: u8 = 23;
pub const FIT_SPORT_DRIVING: u8 = 24;
pub const FIT_SPORT_GOLF: u8 = 25;
pub const FIT_SPORT_HANG_GLIDING: u8 = 26;
pub const FIT_SPORT_HORSEBACK_RIDING: u8 = 27;
pub const FIT_SPORT_HUNTING: u8 = 28;
pub const FIT_SPORT_FISHING: u8 = 29;
pub const FIT_SPORT_INLINE_SKATING: u8 = 30;
pub const FIT_SPORT_ROCK_CLIMBING: u8 = 31;
pub const FIT_SPORT_SAILING: u8 = 32;
pub const FIT_SPORT_ICE_SKATING: u8 = 33;
pub const FIT_SPORT_SKY_DIVING: u8 = 34;
pub const FIT_SPORT_SNOWSHOEING: u8 = 35;
pub const FIT_SPORT_SNOWMOBILING: u8 = 36;
pub const FIT_SPORT_STAND_UP_PADDLEBOARDING: u8 = 37;
pub const FIT_SPORT_SURFING: u8 = 38;
pub const FIT_SPORT_WAKEBOARDING: u8 = 39;
pub const FIT_SPORT_WATER_SKIING: u8 = 40;
pub const FIT_SPORT_KAYAKING: u8 = 41;
pub const FIT_SPORT_RAFTING: u8 = 42;
pub const FIT_SPORT_WINDSURFING: u8 = 43;
pub const FIT_SPORT_KITESURFING: u8 = 44;
pub const FIT_SPORT_TACTICAL: u8 = 45;
pub const FIT_SPORT_JUMPMASTER: u8 = 46;
pub const FIT_SPORT_BOXING: u8 = 47;
pub const FIT_SPORT_FLOOR_CLIMBING: u8 = 48;
pub const FIT_SPORT_DIVING: u8 = 53;
pub const FIT_SPORT_ALL: u8 = 254;

// Sub-sport codes.
pub const FIT_SUB_SPORT_GENERIC: u8 = 0;
pub const FIT_SUB_SPORT_TREADMILL: u8 = 1;
pub const FIT_SUB_SPORT_STREET: u8 = 2;
pub const FIT_SUB_SPORT_TRAIL: u8 = 3;
pub const FIT_SUB_SPORT_TRACK: u8 = 4;
pub const FIT_SUB_SPORT_SPIN: u8 = 5;
pub const FIT_SUB_SPORT_INDOOR_CYCLING: u8 = 6;
pub const FIT_SUB_SPORT_ROAD: u8 = 7;
pub const FIT_SUB_SPORT_MOUNTAIN: u8 = 8;
pub const FIT_SUB_SPORT_DOWNHILL: u8 = 9;
pub const FIT_SUB_SPORT_RECUMBENT: u8 = 10;
pub const FIT_SUB_SPORT_CYCLOCROSS: u8 = 11;
pub const FIT_SUB_SPORT_HAND_CYCLING: u8 = 12;
pub const FIT_SUB_SPORT_TRACK_CYCLING: u8 = 13;
pub const FIT_SUB_SPORT_INDOOR_ROWING: u8 = 14;
pub const FIT_SUB_SPORT_ELLIPTICAL: u8 = 15;
pub const FIT_SUB_SPORT_STAIR_CLIMBING: u8 = 16;
pub const FIT_SUB_SPORT_LAP_SWIMMING: u8 = 17;
pub const FIT_SUB_SPORT_OPEN_WATER: u8 = 18;
pub const FIT_SUB_SPORT_FLEXIBILITY_TRAINING: u8 = 19;
pub const FIT_SUB_SPORT_STRENGTH_TRAINING: u8 = 20;
pub const FIT_SUB_SPORT_WARM_UP: u8 = 21;
pub const FIT_SUB_SPORT_MATCH: u8 = 22;
pub const FIT_SUB_SPORT_EXERCISE: u8 = 23;
pub const FIT_SUB_SPORT_CHALLENGE: u8 = 24;
pub const FIT_SUB_SPORT_INDOOR_SKIING: u8 = 25;
pub const FIT_SUB_SPORT_CARDIO_TRAINING: u8 = 26;
pub const FIT_SUB_SPORT_INDOOR_WALKING: u8 = 27;
pub const FIT_SUB_SPORT_E_BIKE_FITNESS: u8 = 28;
pub const FIT_SUB_SPORT_BMX: u8 = 29;
pub const FIT_SUB_SPORT_CASUAL_WALKING: u8 = 30;
pub const FIT_SUB_SPORT_SPEED_WALKING: u8 = 31;
pub const FIT_SUB_SPORT_BIKE_TO_RUN_TRANSITION: u8 = 32;
pub const FIT_SUB_SPORT_RUN_TO_BIKE_TRANSITION: u8 = 33;
pub const FIT_SUB_SPORT_SWIM_TO_BIKE_TRANSITION: u8 = 34;
pub const FIT_SUB_SPORT_ATV: u8 = 35;
pub const FIT_SUB_SPORT_MOTOCROSS: u8 = 36;
pub const FIT_SUB_SPORT_BACKCOUNTRY: u8 = 37;
pub const FIT_SUB_SPORT_RESORT: u8 = 38;
pub const FIT_SUB_SPORT_RC_DRONE: u8 = 39;
pub const FIT_SUB_SPORT_WINGSUIT: u8 = 40;
pub const FIT_SUB_SPORT_WHITEWATER: u8 = 41;
pub const FIT_SUB_SPORT_SKATE_SKIING: u8 = 42;
pub const FIT_SUB_SPORT_YOGA: u8 = 43;
pub const FIT_SUB_SPORT_PILATES: u8 = 44;
pub const FIT_SUB_SPORT_INDOOR_RUNNING: u8 = 45;
pub const FIT_SUB_SPORT_GRAVEL_CYCLING: u8 = 46;
pub const FIT_SUB_SPORT_E_BIKE_MOUNTAIN: u8 = 47;
pub const FIT_SUB_SPORT_COMMUTING: u8 = 48;
pub const FIT_SUB_SPORT_MIXED_SURFACE: u8 = 49;
pub const FIT_SUB_SPORT_NAVIGATE: u8 = 50;
pub const FIT_SUB_SPORT_TRACK_ME: u8 = 51;
pub const FIT_SUB_SPORT_MAP: u8 = 52;
pub const FIT_SUB_SPORT_SINGLE_GAS_DIVING: u8 = 53;
pub const FIT_SUB_SPORT_MULTI_GAS_DIVING: u8 = 54;
pub const FIT_SUB_SPORT_GAUGE_DIVING: u8 = 55;
pub const FIT_SUB_SPORT_APNEA_DIVING: u8 = 56;
pub const FIT_SUB_SPORT_APNEA_HUNTING: u8 = 57;
pub const FIT_SUB_SPORT_VIRTUAL_ACTIVITY: u8 = 58;
pub const FIT_SUB_SPORT_OBSTACLE: u8 = 59;
pub const FIT_SUB_SPORT_BREATHING: u8 = 62;
pub const FIT_SUB_SPORT_SAIL_RACE: u8 = 65;
pub const FIT_SUB_SPORT_ULTRA: u8 = 67;
pub const FIT_SUB_SPORT_INDOOR_CLIMBING: u8 = 68;
pub const FIT_SUB_SPORT_BOULDERING: u8 = 69;
pub const FIT_SUB_SPORT_HIIT: u8 = 70;
pub const FIT_SUB_SPORT_AMRAP: u8 = 73;
pub const FIT_SUB_SPORT_EMOM: u8 = 74;
pub const FIT_SUB_SPORT_TABATA: u8 = 75;
pub const FIT_SUB_SPORT_PICKLEBALL: u8 = 84;
pub const FIT_SUB_SPORT_PADEL: u8 = 85;
pub const FIT_SUB_SPORT_FLY_CANOPY: u8 = 110;
pub const FIT_SUB_SPORT_FLY_PARAGLIDE: u8 = 111;
pub const FIT_SUB_SPORT_FLY_PARAMOTOR: u8 = 112;
pub const FIT_SUB_SPORT_FLY_PRESSURIZED: u8 = 113;
pub const FIT_SUB_SPORT_FLY_NAVIGATE: u8 = 114;
pub const FIT_SUB_SPORT_FLY_TIMER: u8 = 115;
pub const FIT_SUB_SPORT_FLY_ALTIMETER: u8 = 116;
pub const FIT_SUB_SPORT_FLY_WX: u8 = 117;
pub const FIT_SUB_SPORT_FLY_VFR: u8 = 118;
pub const FIT_SUB_SPORT_FLY_IFR: u8 = 119;
pub const FIT_SUB_SPORT_ALL: u8 = 254;

// Swim stroke codes.
pub const FIT_STROKE_TYPE_INVALID: u8 = FIT_ENUM_INVALID;
pub const FIT_STROKE_TYPE_NO_EVENT: u8 = 0;
pub const FIT_STROKE_TYPE_OTHER: u8 = 1;
pub const FIT_STROKE_TYPE_SERVE: u8 = 2;
pub const FIT_STROKE_TYPE_FOREHAND: u8 = 3;
pub const FIT_STROKE_TYPE_BACKHAND: u8 = 4;
pub const FIT_STROKE_TYPE_SMASH: u8 = 5;
pub const FIT_STROKE_TYPE_COUNT: u8 = 6;

// The all-ones byte that marks an unset enum value.
pub const FIT_ENUM_INVALID: u8 = 0xff;

// Lap trigger codes.
pub const FIT_LAP_TRIGGER_MANUAL: u8 = 0;
pub const FIT_LAP_TRIGGER_TIME: u8 = 1;
pub const FIT_LAP_TRIGGER_DISTANCE: u8 = 2;
pub const FIT_LAP_TRIGGER_POSITION_START: u8 = 3;
pub const FIT_LAP_TRIGGER_POSITION_LAP: u8 = 4;
pub const FIT_LAP_TRIGGER_POSITION_WAYPOINT: u8 = 5;
pub const FIT_LAP_TRIGGER_POSITION_MARKED: u8 = 6;
pub const FIT_LAP_TRIGGER_SESSION_END: u8 = 7;
pub const FIT_LAP_TRIGGER_FITNESS_EQUIPMENT: u8 = 8;

// Base-type tags, as declared by field definitions; the high bit marks types with an invalid-value sentinel.
pub const FIT_BASE_TYPE_ENUM: u8 = 0x00;
pub const FIT_BASE_TYPE_SINT8: u8 = 0x01;
pub const FIT_BASE_TYPE_UINT8: u8 = 0x02;
pub const FIT_BASE_TYPE_SINT16: u8 = 0x83;
pub const FIT_BASE_TYPE_UINT16: u8 = 0x84;
pub const FIT_BASE_TYPE_SINT32: u8 = 0x85;
pub const FIT_BASE_TYPE_UINT32: u8 = 0x86;
pub const FIT_BASE_TYPE_STRING: u8 = 0x07;
pub const FIT_BASE_TYPE_FLOAT32: u8 = 0x88;
pub const FIT_BASE_TYPE_FLOAT64: u8 = 0x89;
pub const FIT_BASE_TYPE_UINT8Z: u8 = 0x0A;
pub const FIT_BASE_TYPE_UINT16Z: u8 = 0x8B;
pub const FIT_BASE_TYPE_UINT32Z: u8 = 0x8C;
pub const FIT_BASE_TYPE_BYTE: u8 = 0x0D;
pub const FIT_BASE_TYPE_SINT64: u8 = 0x8E;
pub const FIT_BASE_TYPE_UINT64: u8 = 0x8F;
pub const FIT_BASE_TYPE_UINT64Z: u8 = 0x90;

// Workout capability flags.
pub const WORKOUT_CAPABILITIES_INTERVAL: u32 = 0x00000001;
pub const WORKOUT_CAPABILITIES_CUSTOM: u32 = 0x00000002;
pub const WORKOUT_CAPABILITIES_FITNESS_EQUIPMENT: u32 = 0x00000004;
pub const WORKOUT_CAPABILITIES_FIRSTBEAT: u32 = 0x00000008;
pub const WORKOUT_CAPABILITIES_NEW_LEAF: u32 = 0x00000010;
pub const WORKOUT_CAPABILITIES_TCX: u32 = 0x00000020;
pub const WORKOUT_CAPABILITIES_SPEED: u32 = 0x00000080;
pub const WORKOUT_CAPABILITIES_HEART_RATE: u32 = 0x00000100;
pub const WORKOUT_CAPABILITIES_DISTANCE: u32 = 0x00000200;
pub const WORKOUT_CAPABILITIES_CADENCE: u32 = 0x00000400;
pub const WORKOUT_CAPABILITIES_POWER: u32 = 0x00000800;
pub const WORKOUT_CAPABILITIES_GRADE: u32 = 0x00001000;
pub const WORKOUT_CAPABILITIES_RESISTANCE: u32 = 0x00002000;
pub const WORKOUT_CAPABILITIES_PROTECTED: u32 = 0x00004000;

// Workout equipment codes.
pub const WORKOUT_EQUIPMENT_NONE: u8 = 0;
pub const WORKOUT_EQUIPMENT_SWIM_FINS: u8 = 1;
pub const WORKOUT_EQUIPMENT_SWIM_KICKBOARD: u8 = 2;
pub const WORKOUT_EQUIPMENT_SWIM_PADDLES: u8 = 3;
pub const WORKOUT_EQUIPMENT_PULL_BUOY: u8 = 4;
pub const WORKOUT_EQUIPMENT_SWIM_SNORKEL: u8 = 5;

// Workout step duration types.
pub const WORKOUT_STEP_DURATION_TIME: u8 = 0;
pub const WORKOUT_STEP_DURATION_DISTANCE: u8 = 1;
pub const WORKOUT_STEP_DURATION_HEART_RATE_LESS_THAN: u8 = 2;
pub const WORKOUT_STEP_DURATION_HEART_RATE_GREATER_THAN: u8 = 3;
pub const WORKOUT_STEP_DURATION_CALORIES: u8 = 4;
pub const WORKOUT_STEP_DURATION_OPEN: u8 = 5;
pub const WORKOUT_STEP_DURATION_REPEAT_UNTIL_STEPS_COMPLETE: u8 = 6;
pub const WORKOUT_STEP_DURATION_REPEAT_UNTIL_TIME: u8 = 7;
pub const WORKOUT_STEP_DURATION_REPEAT_UNTIL_DISTANCE: u8 = 8;
pub const WORKOUT_STEP_DURATION_REPEAT_UNTIL_CALORIES: u8 = 9;
pub const WORKOUT_STEP_DURATION_REPEAT_UNTIL_HEART_RATE_LESS_THAN: u8 = 10;
pub const WORKOUT_STEP_DURATION_REPEAT_UNTIL_HEART_RATE_GREATER_THAN: u8 = 11;
pub const WORKOUT_STEP_DURATION_REPEAT_UNTIL_POWER_LESS_THAN: u8 = 12;
pub const WORKOUT_STEP_DURATION_REPEAT_UNTIL_POWER_GREATER_THAN: u8 = 13;
pub const WORKOUT_STEP_DURATION_POWER_LESS_THAN: u8 = 14;
pub const WORKOUT_STEP_DURATION_POWER_GREATER_THAN: u8 = 15;
pub const WORKOUT_STEP_DURATION_TRAINING_PEAKS_TSS: u8 = 16;
pub const WORKOUT_STEP_DURATION_REPEAT_UNTIL_POWER_LAST_LAP_LESS_THAN: u8 = 17;
pub const WORKOUT_STEP_DURATION_REPEAT_UNTIL_MAX_POWER_LAST_LAP_LESS_THAN: u8 = 18;
pub const WORKOUT_STEP_DURATION_POWER3S_LESS_THAN: u8 = 19;
pub const WORKOUT_STEP_DURATION_POWER10S_LESS_THAN: u8 = 20;
pub const WORKOUT_STEP_DURATION_POWER30S_LESS_THAN: u8 = 21;
pub const WORKOUT_STEP_DURATION_POWER3S_GREATER_THAN: u8 = 22;
pub const WORKOUT_STEP_DURATION_POWER10S_GREATER_THAN: u8 = 23;
pub const WORKOUT_STEP_DURATION_POWER30S_GREATER_THAN: u8 = 24;
pub const WORKOUT_STEP_DURATION_POWER_LAP_LESS_THAN: u8 = 25;
pub const WORKOUT_STEP_DURATION_POWER_LAP_GREATER_THAN: u8 = 26;
pub const WORKOUT_STEP_DURATION_REPEAT_UNTIL_TRAINING_PEAKS_TSS: u8 = 27;
pub const WORKOUT_STEP_DURATION_REPETITION_TIME: u8 = 28;
pub const WORKOUT_STEP_DURATION_REPS: u8 = 29;
pub const WORKOUT_STEP_DURATION_TIME_ONLY: u8 = 31;

// Workout step target types.
pub const WORKOUT_STEP_TARGET_SPEED: u8 = 0;
pub const WORKOUT_STEP_TARGET_HEART_RATE: u8 = 1;
pub const WORKOUT_STEP_TARGET_OPEN: u8 = 2;
pub const WORKOUT_STEP_TARGET_CADENCE: u8 = 3;
pub const WORKOUT_STEP_TARGET_POWER: u8 = 4;
pub const WORKOUT_STEP_TARGET_GRADE: u8 = 5;
pub const WORKOUT_STEP_TARGET_RESISTANCE: u8 = 6;
pub const WORKOUT_STEP_TARGET_POWER_3S: u8 = 7;
pub const WORKOUT_STEP_TARGET_POWER_10S: u8 = 8;
pub const WORKOUT_STEP_TARGET_POWER_30S: u8 = 9;
pub const WORKOUT_STEP_TARGET_POWER_LAP: u8 = 10;
pub const WORKOUT_STEP_TARGET_SWIM_STROKE: u8 = 11;
pub const WORKOUT_STEP_TARGET_SPEED_LAP: u8 = 12;
pub const WORKOUT_STEP_TARGET_HEART_RATE_LAP: u8 = 13;

// Workout step intensity codes.
pub const INTENSITY_ACTIVE: u8 = 0;
pub const INTENSITY_REST: u8 = 1;
pub const INTENSITY_WARM_UP: u8 = 2;
pub const INTENSITY_COOL_DOWN: u8 = 3;
pub const INTENSITY_RECOVERY: u8 = 4;
pub const INTENSITY_INTERVAL: u8 = 5;
pub const INTENSITY_OTHER: u8 = 6;

// Display units.
pub const DISPLAY_MEASURE_METRIC: u8 = 0;
pub const DISPLAY_MEASURE_STATUTE: u8 = 1;
pub const DISPLAY_MEASURE_NAUTICAL: u8 = 2;

} // verus!
