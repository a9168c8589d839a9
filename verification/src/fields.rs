//! The decoded-value data model: field definitions as declared by definition
//! records, and decoded field values as delivered to the caller.

use vstd::prelude::*;

verus! {

/// Tells a consumer which member of a `FitFieldValue` carries the value.
#[derive(Clone, Copy, Debug, PartialEq, Eq, Structural)]
pub enum FieldType {
    /// Value not set.
    FieldTypeNotSet,
    /// Value is an unsigned integer.
    FieldTypeUInt,
    /// Value is a signed integer.
    FieldTypeSInt,
    /// Value is a floating-point number, carried as its IEEE-754 bit pattern.
    FieldTypeFloat,
    /// Value is a byte array.
    FieldTypeByteArray,
    /// Value is a string.
    FieldTypeStr,
}

/// A field definition as described by a definition record and used to lay
/// out the bytes of later data records.
#[derive(Clone, Copy, Debug, PartialEq, Eq, Structural)]
pub struct FieldDefinition {
    /// Field definition number.
    pub field_def: u8,
    /// Number of bytes the field occupies in a data record.
    pub size: u8,
    /// Base-type tag, which selects the decoding.
    pub base_type: u8,
    /// Set when this is a developer-defined field.
    pub is_dev_field: bool,
}

/// The ordered field layout of one local message type.
pub type FieldDefinitionList = Vec<FieldDefinition>;

/// Mathematical model of a decoded field value.
#[verifier::ext_equal]
pub struct SpecFieldValue {
    pub field_def: u8,
    pub base_type: u8,
    pub type_enum: FieldType,
    pub value_uint: u64,
    pub value_sint: i64,
    pub value_float_bits: u64,
    pub value_byte_array: Seq<u8>,
    pub value_string: Seq<char>,
    pub is_dev_field: bool,
}

/// One decoded field value. `type_enum` says which of the `value_*` members
/// is meaningful; the others keep their defaults. Floating-point fields carry
/// the raw IEEE-754 bit pattern (big-endian on the wire) in
/// `value_float_bits`: a 32-bit pattern for float32, a 64-bit one for
/// float64.
#[derive(Clone, Debug)]
pub struct FitFieldValue {
    /// Field definition number, from the message definition.
    pub field_def: u8,
    /// Base-type tag, from the message definition.
    pub base_type: u8,
    /// Which member carries the value.
    pub type_enum: FieldType,
    pub value_uint: u64,
    pub value_sint: i64,
    pub value_float_bits: u64,
    pub value_byte_array: Vec<u8>,
    pub value_string: String,
    /// Set when the field was declared in the developer section of the
    /// definition record.
    pub is_dev_field: bool,
}

impl View for FitFieldValue {
    type V = SpecFieldValue;

    open spec fn view(&self) -> SpecFieldValue {
        SpecFieldValue {
            field_def: self.field_def,
            base_type: self.base_type,
            type_enum: self.type_enum,
            value_uint: self.value_uint,
            value_sint: self.value_sint,
            value_float_bits: self.value_float_bits,
            value_byte_array: self.value_byte_array@,
            value_string: self.value_string@,
            is_dev_field: self.is_dev_field,
        }
    }
}

/// The model of a field value before anything has been decoded into it.
pub open spec fn spec_empty_field() -> SpecFieldValue {
    SpecFieldValue {
        field_def: 0,
        base_type: 0,
        type_enum: FieldType::FieldTypeNotSet,
        value_uint: 0,
        value_sint: 0,
        value_float_bits: 0,
        value_byte_array: Seq::empty(),
        value_string: Seq::empty(),
        is_dev_field: false,
    }
}

impl FitFieldValue {
    /// A field value with nothing set.
    pub fn new() -> (r: Self)
        ensures
            r@ == spec_empty_field(),
    {
        let r = FitFieldValue {
            field_def: 0,
            base_type: 0,
            type_enum: FieldType::FieldTypeNotSet,
            value_uint: 0,
            value_sint: 0,
            value_float_bits: 0,
            value_byte_array: Vec::new(),
            value_string: String::new(),
            is_dev_field: false,
        };
        proof {
            assert(r@.value_byte_array =~= spec_empty_field().value_byte_array);
            assert(r@.value_string =~= spec_empty_field().value_string);
        }
        r
    }

    /// The signed value truncated to 8 bits.
    pub fn get_i8(&self) -> (r: i8)
        ensures
            r == self.value_sint as i8,
    {
        #[verifier::truncate] (self.value_sint as i8)
    }

    /// The signed value truncated to 16 bits.
    pub fn get_i16(&self) -> (r: i16)
        ensures
            r == self.value_sint as i16,
    {
        #[verifier::truncate] (self.value_sint as i16)
    }

    /// The signed value truncated to 32 bits.
    pub fn get_i32(&self) -> (r: i32)
        ensures
            r == self.value_sint as i32,
    {
        #[verifier::truncate] (self.value_sint as i32)
    }

    /// The signed value.
    pub fn get_i64(&self) -> (r: i64)
        ensures
            r == self.value_sint,
    {
        self.value_sint
    }

    /// The unsigned value truncated to 8 bits.
    pub fn get_u8(&self) -> (r: u8)
        ensures
            r == self.value_uint as u8,
    {
        #[verifier::truncate] (self.value_uint as u8)
    }

    /// The unsigned value truncated to 16 bits.
    pub fn get_u16(&self) -> (r: u16)
        ensures
            r == self.value_uint as u16,
    {
        #[verifier::truncate] (self.value_uint as u16)
    }

    /// The unsigned value truncated to 32 bits.
    pub fn get_u32(&self) -> (r: u32)
        ensures
            r == self.value_uint as u32,
    {
        #[verifier::truncate] (self.value_uint as u32)
    }

    /// The unsigned value.
    pub fn get_u64(&self) -> (r: u64)
        ensures
            r == self.value_uint,
    {
        self.value_uint
    }
}

} // verus!
