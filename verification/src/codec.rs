//! Byte-level value codec: stateless conversions from raw field bytes to
//! unsigned and signed integers and to strings, parameterized by the declared
//! endianness of the enclosing message.

use vstd::prelude::*;
use vstd::arithmetic::div_mod::{
    lemma_add_mod_noop, lemma_mul_mod_noop_left, lemma_mul_mod_noop_right,
};
use crate::error::FitError;
use crate::fields::{FieldType, FitFieldValue, SpecFieldValue, spec_empty_field};

verus! {

/// Value of a byte sequence read as a big-endian unsigned integer:
/// byte 0 is the most significant.
pub open spec fn be_uint(s: Seq<u8>) -> int
    decreases s.len(),
{
    if s.len() == 0 {
        0
    } else {
        be_uint(s.drop_last()) * 256 + s.last()
    }
}

/// Value of a byte sequence read as a little-endian unsigned integer:
/// the last byte is the most significant.
pub open spec fn le_uint(s: Seq<u8>) -> int
    decreases s.len(),
{
    if s.len() == 0 {
        0
    } else {
        s.first() + le_uint(s.drop_first()) * 256
    }
}

/// Unsigned value of a byte sequence under the given endianness.
pub open spec fn spec_uint(s: Seq<u8>, is_big_endian: bool) -> int {
    if is_big_endian {
        be_uint(s)
    } else {
        le_uint(s)
    }
}

/// 256 raised to the n-th power: the number of values n bytes can hold.
pub open spec fn pow256(n: nat) -> int
    decreases n,
{
    if n == 0 {
        1
    } else {
        256 * pow256((n - 1) as nat)
    }
}

proof fn lemma_pow256_pos(n: nat)
    ensures
        pow256(n) >= 1,
    decreases n,
{
    if n > 0 {
        lemma_pow256_pos((n - 1) as nat);
    }
}

proof fn lemma_pow256_increases(a: nat, b: nat)
    requires
        a <= b,
    ensures
        pow256(a) <= pow256(b),
    decreases b,
{
    if a < b {
        lemma_pow256_increases(a, (b - 1) as nat);
        lemma_pow256_pos((b - 1) as nat);
    }
}

proof fn lemma_be_uint_bound(s: Seq<u8>)
    ensures
        0 <= be_uint(s) < pow256(s.len()),
    decreases s.len(),
{
    if s.len() > 0 {
        lemma_be_uint_bound(s.drop_last());
    }
}

proof fn lemma_le_uint_bound(s: Seq<u8>)
    ensures
        0 <= le_uint(s) < pow256(s.len()),
    decreases s.len(),
{
    if s.len() > 0 {
        lemma_le_uint_bound(s.drop_first());
    }
}

/// The value of a byte sequence is bounded by the number of values its
/// length can hold, under either endianness.
pub proof fn lemma_uint_bounds(s: Seq<u8>)
    ensures
        0 <= be_uint(s) < pow256(s.len()),
        0 <= le_uint(s) < pow256(s.len()),
{
    lemma_be_uint_bound(s);
    lemma_le_uint_bound(s);
}

/// The little-endian value of four bytes, written out by position.
pub proof fn lemma_le_uint_4(s: Seq<u8>)
    requires
        s.len() == 4,
    ensures
        le_uint(s) == s[0] + 0x100 * s[1] + 0x10000 * s[2] + 0x1000000 * s[3],
{
    let s1 = s.drop_first();
    let s2 = s1.drop_first();
    let s3 = s2.drop_first();
    assert(s3.drop_first() =~= Seq::<u8>::empty());
    assert(le_uint(s3.drop_first()) == 0);
    assert(le_uint(s3) == s3[0]);
    assert(le_uint(s2) == s2[0] + 256 * s3[0]);
    assert(le_uint(s1) == s1[0] + 256 * s2[0] + 0x10000 * s3[0]);
    assert(le_uint(s) == s[0] + 256 * s1[0] + 0x10000 * s2[0] + 0x1000000 * s3[0]);
}

/// The big-endian value of four bytes, written out by position.
pub proof fn lemma_be_uint_4(s: Seq<u8>)
    requires
        s.len() == 4,
    ensures
        be_uint(s) == 0x1000000 * s[0] + 0x10000 * s[1] + 0x100 * s[2] + s[3],
{
    let s1 = s.drop_last();
    let s2 = s1.drop_last();
    let s3 = s2.drop_last();
    assert(s3.drop_last() =~= Seq::<u8>::empty());
    assert(be_uint(s3.drop_last()) == 0);
    assert(be_uint(s3) == s3[0]);
    assert(be_uint(s2) == 256 * s3[0] + s2[1]);
    assert(be_uint(s1) == 0x10000 * s3[0] + 256 * s2[1] + s1[2]);
    assert(be_uint(s) == 0x1000000 * s3[0] + 0x10000 * s2[1] + 256 * s1[2] + s[3]);
}

/// Reads `len` bytes at `data[start..]` as an unsigned integer with the given
/// endianness. At most eight bytes fit a `u64`, so `len` is bounded.
pub fn read_uint(data: &Vec<u8>, start: usize, len: usize, is_big_endian: bool) -> (r: u64)
    requires
        start + len <= data.len(),
        len <= 8,
    ensures
        r == spec_uint(data@.subrange(start as int, start as int + len as int), is_big_endian),
{
    let mut num: u64 = 0;
    if is_big_endian {
        let mut i: usize = 0;
        while i < len
            invariant
                i <= len,
                len <= 8,
                start + len <= data.len(),
                num == be_uint(data@.subrange(start as int, start as int + i as int)),
            decreases len - i,
        {
            proof {
                let s = data@.subrange(start as int, start as int + i as int);
                lemma_be_uint_bound(s);
                lemma_pow256_increases(i as nat, 7);
                assert(pow256(7) == 0x100000000000000) by {
                    reveal_with_fuel(pow256, 8);
                }
                let s2 = data@.subrange(start as int, start as int + i as int + 1);
                assert(s2.drop_last() =~= s);
            }
            num = num * 256 + (data[start + i] as u64);
            i = i + 1;
        }
        proof {
            assert(data@.subrange(start as int, start as int + i as int) =~= data@.subrange(
                start as int,
                start as int + len as int,
            ));
        }
    } else {
        let mut i: usize = len;
        while i > 0
            invariant
                i <= len,
                len <= 8,
                start + len <= data.len(),
                num == le_uint(data@.subrange(start as int + i as int, start as int + len as int)),
            decreases i,
        {
            proof {
                let s = data@.subrange(start as int + i as int, start as int + len as int);
                lemma_le_uint_bound(s);
                lemma_pow256_increases((len - i) as nat, 7);
                assert(pow256(7) == 0x100000000000000) by {
                    reveal_with_fuel(pow256, 8);
                }
                let s2 = data@.subrange(
                    start as int + i as int - 1,
                    start as int + len as int,
                );
                assert(s2.drop_first() =~= s);
            }
            i = i - 1;
            num = num * 256 + (data[start + i] as u64);
        }
        proof {
            assert(data@.subrange(start as int, start as int + len as int) =~= data@.subrange(
                start as int + 0, start as int + len as int));
        }
    }
    num
}

/// Reads `len` bytes at `data[start..]` as an unsigned integer with the given
/// endianness, reduced modulo 2^32. Unlike `read_uint` this accepts any
/// length: the low 32 bits of the assembled value are kept.
pub fn read_uint_trunc32(data: &Vec<u8>, start: usize, len: usize, is_big_endian: bool) -> (r: u32)
    requires
        start + len <= data.len(),
    ensures
        r == spec_uint(data@.subrange(start as int, start as int + len as int), is_big_endian)
            % 0x1_0000_0000,
{
    let mut num: u64 = 0;
    if is_big_endian {
        let mut i: usize = 0;
        while i < len
            invariant
                i <= len,
                start + len <= data.len(),
                0 <= num < 0x1_0000_0000,
                num == be_uint(data@.subrange(start as int, start as int + i as int))
                    % 0x1_0000_0000,
            decreases len - i,
        {
            let b = data[start + i];
            proof {
                let s = data@.subrange(start as int, start as int + i as int);
                let s2 = data@.subrange(start as int, start as int + i as int + 1);
                assert(s2.drop_last() =~= s);
                lemma_be_uint_bound(s);
                let m = 0x1_0000_0000int;
                lemma_mul_mod_noop_left(be_uint(s), 256, m);
                lemma_add_mod_noop(be_uint(s) * 256, b as int, m);
                lemma_add_mod_noop((be_uint(s) % m) * 256, b as int, m);
            }
            num = (num * 256 + (b as u64)) % 0x1_0000_0000;
            i = i + 1;
        }
        proof {
            assert(data@.subrange(start as int, start as int + i as int) =~= data@.subrange(
                start as int,
                start as int + len as int,
            ));
        }
    } else {
        let mut i: usize = len;
        while i > 0
            invariant
                i <= len,
                start + len <= data.len(),
                0 <= num < 0x1_0000_0000,
                num == le_uint(data@.subrange(start as int + i as int, start as int + len as int))
                    % 0x1_0000_0000,
            decreases i,
        {
            i = i - 1;
            let b = data[start + i];
            proof {
                let s = data@.subrange(start as int + i as int + 1, start as int + len as int);
                let s2 = data@.subrange(start as int + i as int, start as int + len as int);
                assert(s2.drop_first() =~= s);
                lemma_le_uint_bound(s);
                let m = 0x1_0000_0000int;
                lemma_mul_mod_noop_right(256, le_uint(s), m);
                lemma_add_mod_noop(b as int, 256 * le_uint(s), m);
                lemma_add_mod_noop(b as int, 256 * (le_uint(s) % m), m);
            }
            num = (num * 256 + (b as u64)) % 0x1_0000_0000;
        }
        proof {
            assert(data@.subrange(start as int, start as int + len as int) =~= data@.subrange(
                start as int + 0, start as int + len as int));
        }
    }
    num as u32
}

/// Two's-complement reading of the unsigned value `v` of a field that is
/// `num_bytes` wide: values at or above half the range wrap around to
/// negative.
pub open spec fn sint_val(v: int, num_bytes: int) -> int {
    if num_bytes == 1 {
        if v < 0x80 {
            v
        } else {
            v - 0x100
        }
    } else if num_bytes == 2 {
        if v < 0x8000 {
            v
        } else {
            v - 0x10000
        }
    } else if num_bytes == 4 {
        if v < 0x8000_0000 {
            v
        } else {
            v - 0x1_0000_0000
        }
    } else {
        if v < 0x8000_0000_0000_0000 {
            v
        } else {
            v - 0x1_0000_0000_0000_0000
        }
    }
}

/// Converts the unsigned value of a `num_bytes`-wide field to its
/// two's-complement signed reading.
pub fn signed_of_uint(v: u64, num_bytes: usize) -> (r: i64)
    requires
        num_bytes == 1 || num_bytes == 2 || num_bytes == 4 || num_bytes == 8,
        num_bytes == 1 ==> v < 0x100,
        num_bytes == 2 ==> v < 0x10000,
        num_bytes == 4 ==> v < 0x1_0000_0000,
    ensures
        r == sint_val(v as int, num_bytes as int),
{
    if num_bytes == 1 {
        if v < 0x80 {
            v as i64
        } else {
            (v as i64) - 0x100
        }
    } else if num_bytes == 2 {
        if v < 0x8000 {
            v as i64
        } else {
            (v as i64) - 0x10000
        }
    } else if num_bytes == 4 {
        if v < 0x8000_0000 {
            v as i64
        } else {
            (v as i64) - 0x1_0000_0000
        }
    } else {
        if v < 0x8000_0000_0000_0000 {
            v as i64
        } else {
            -1i64 - ((u64::MAX - v) as i64)
        }
    }
}

/// The byte sequence with every trailing NUL byte removed.
pub open spec fn trim_trailing_nul(s: Seq<u8>) -> Seq<u8>
    decreases s.len(),
{
    if s.len() > 0 && s.last() == 0 {
        trim_trailing_nul(s.drop_last())
    } else {
        s
    }
}

/// Each byte read as the character with that code point.
pub open spec fn chars_of_bytes(s: Seq<u8>) -> Seq<char> {
    s.map_values(|b: u8| b as char)
}

/// The string a field's bytes stand for: the bytes with trailing NULs
/// trimmed, each remaining byte read as a character.
pub open spec fn string_of_bytes(s: Seq<u8>) -> Seq<char> {
    chars_of_bytes(trim_trailing_nul(s))
}

/// Relies on String::push: appends the given character to the string.
pub assume_specification[ String::push ](s: &mut String, ch: char)
    ensures
        final(s)@ == old(s)@.push(ch),
;

/// Converts the first `num_bytes` bytes of a byte array into a string,
/// trimming trailing NUL bytes; every other byte becomes the character with
/// its code point.
pub fn byte_array_to_string(bytes: &Vec<u8>, num_bytes: usize) -> (r: String)
    requires
        num_bytes <= bytes.len(),
    ensures
        r@ == string_of_bytes(bytes@.take(num_bytes as int)),
{
    let mut end: usize = num_bytes;
    while end > 0 && bytes[end - 1] == 0
        invariant
            end <= num_bytes,
            num_bytes <= bytes.len(),
            trim_trailing_nul(bytes@.take(num_bytes as int)) == trim_trailing_nul(
                bytes@.take(end as int),
            ),
        decreases end,
    {
        proof {
            let s = bytes@.take(end as int);
            assert(s.drop_last() =~= bytes@.take(end as int - 1));
        }
        end = end - 1;
    }
    proof {
        let s = bytes@.take(end as int);
        assert(trim_trailing_nul(s) == s);
    }
    let mut r = String::new();
    let mut i: usize = 0;
    while i < end
        invariant
            i <= end,
            end <= num_bytes,
            num_bytes <= bytes.len(),
            r@ == chars_of_bytes(bytes@.take(i as int)),
        decreases end - i,
    {
        let b = bytes[i];
        r.push(b as char);
        proof {
            assert(chars_of_bytes(bytes@.take(i as int + 1)) =~= chars_of_bytes(
                bytes@.take(i as int),
            ).push(b as char));
        }
        i = i + 1;
    }
    proof {
        assert(r@ =~= string_of_bytes(bytes@.take(num_bytes as int)));
    }
    r
}

/// Converts the first `num_bytes` bytes of a byte array to an unsigned
/// integer under the given endianness.
pub fn byte_array_to_num(bytes: &Vec<u8>, num_bytes: usize, is_big_endian: bool) -> (r: u64)
    requires
        num_bytes <= bytes.len(),
        num_bytes <= 8,
    ensures
        r == spec_uint(bytes@.take(num_bytes as int), is_big_endian),
{
    let r = read_uint(bytes, 0, num_bytes, is_big_endian);
    proof {
        assert(bytes@.subrange(0, num_bytes as int) =~= bytes@.take(num_bytes as int));
    }
    r
}

/// Converts the first 8 bytes of a byte array to a `u64`.
pub fn byte_array_to_uint64(bytes: &Vec<u8>, is_big_endian: bool) -> (r: u64)
    requires
        bytes.len() >= 8,
    ensures
        r == spec_uint(bytes@.take(8), is_big_endian),
{
    byte_array_to_num(bytes, 8, is_big_endian)
}

/// Converts the first 4 bytes of a byte array to a `u32`.
pub fn byte_array_to_uint32(bytes: &Vec<u8>, is_big_endian: bool) -> (r: u32)
    requires
        bytes.len() >= 4,
    ensures
        r == spec_uint(bytes@.take(4), is_big_endian),
{
    let v = byte_array_to_num(bytes, 4, is_big_endian);
    proof {
        if is_big_endian {
            lemma_be_uint_bound(bytes@.take(4));
        } else {
            lemma_le_uint_bound(bytes@.take(4));
        }
        assert(pow256(4) == 0x1_0000_0000) by {
            reveal_with_fuel(pow256, 5);
        }
    }
    v as u32
}

/// Converts the first 2 bytes of a byte array to a `u16`.
pub fn byte_array_to_uint16(bytes: &Vec<u8>, is_big_endian: bool) -> (r: u16)
    requires
        bytes.len() >= 2,
    ensures
        r == spec_uint(bytes@.take(2), is_big_endian),
{
    let v = byte_array_to_num(bytes, 2, is_big_endian);
    proof {
        if is_big_endian {
            lemma_be_uint_bound(bytes@.take(2));
        } else {
            lemma_le_uint_bound(bytes@.take(2));
        }
        assert(pow256(2) == 0x10000) by {
            reveal_with_fuel(pow256, 3);
        }
    }
    v as u16
}

/// The first byte of a byte array.
pub fn byte_array_to_uint8(bytes: &Vec<u8>) -> (r: u8)
    requires
        bytes.len() >= 1,
    ensures
        r == bytes@[0],
{
    bytes[0]
}

/// Converts the first 8 bytes of a byte array to an `i64`, two's complement.
pub fn byte_array_to_sint64(bytes: &Vec<u8>, is_big_endian: bool) -> (r: i64)
    requires
        bytes.len() >= 8,
    ensures
        r == sint_val(spec_uint(bytes@.take(8), is_big_endian), 8),
{
    let v = byte_array_to_num(bytes, 8, is_big_endian);
    signed_of_uint(v, 8)
}

/// Converts the first 4 bytes of a byte array to an `i32`, two's complement.
pub fn byte_array_to_sint32(bytes: &Vec<u8>, is_big_endian: bool) -> (r: i32)
    requires
        bytes.len() >= 4,
    ensures
        r == sint_val(spec_uint(bytes@.take(4), is_big_endian), 4),
{
    let v = byte_array_to_num(bytes, 4, is_big_endian);
    proof {
        if is_big_endian {
            lemma_be_uint_bound(bytes@.take(4));
        } else {
            lemma_le_uint_bound(bytes@.take(4));
        }
        assert(pow256(4) == 0x1_0000_0000) by {
            reveal_with_fuel(pow256, 5);
        }
    }
    signed_of_uint(v, 4) as i32
}

/// Converts the first 2 bytes of a byte array to an `i16`, two's complement.
pub fn byte_array_to_sint16(bytes: &Vec<u8>, is_big_endian: bool) -> (r: i16)
    requires
        bytes.len() >= 2,
    ensures
        r == sint_val(spec_uint(bytes@.take(2), is_big_endian), 2),
{
    let v = byte_array_to_num(bytes, 2, is_big_endian);
    proof {
        if is_big_endian {
            lemma_be_uint_bound(bytes@.take(2));
        } else {
            lemma_le_uint_bound(bytes@.take(2));
        }
        assert(pow256(2) == 0x10000) by {
            reveal_with_fuel(pow256, 3);
        }
    }
    signed_of_uint(v, 2) as i16
}

/// Converts the first byte of a byte array to an `i8`, two's complement.
pub fn byte_array_to_sint8(bytes: &Vec<u8>) -> (r: i8)
    requires
        bytes.len() >= 1,
    ensures
        r == sint_val(bytes@[0] as int, 1),
{
    signed_of_uint(bytes[0] as u64, 1) as i8
}

/// The byte width of an unsigned base type: enum, uint8 and uint8z are one
/// byte, uint16 forms two, uint32 forms four, uint64 forms eight. Zero for
/// every other tag.
pub open spec fn uint_width(base_type: u8) -> int {
    if base_type == 0x00 || base_type == 0x02 || base_type == 0x0A {
        1
    } else if base_type == 0x84 || base_type == 0x8B {
        2
    } else if base_type == 0x86 || base_type == 0x8C {
        4
    } else if base_type == 0x8F || base_type == 0x90 {
        8
    } else {
        0
    }
}

/// The byte width of a signed base type; zero for every other tag.
pub open spec fn sint_width(base_type: u8) -> int {
    if base_type == 0x01 {
        1
    } else if base_type == 0x83 {
        2
    } else if base_type == 0x85 {
        4
    } else if base_type == 0x8E {
        8
    } else {
        0
    }
}

/// The byte width of a floating-point base type; zero for every other tag.
pub open spec fn float_width(base_type: u8) -> int {
    if base_type == 0x88 {
        4
    } else if base_type == 0x89 {
        8
    } else {
        0
    }
}

/// An unsigned decoded field value.
pub open spec fn spec_uint_field(field_def: u8, base_type: u8, is_dev: bool, v: u64) -> SpecFieldValue {
    SpecFieldValue {
        field_def,
        base_type,
        type_enum: FieldType::FieldTypeUInt,
        value_uint: v,
        is_dev_field: is_dev,
        ..spec_empty_field()
    }
}

/// A signed decoded field value.
pub open spec fn spec_sint_field(field_def: u8, base_type: u8, is_dev: bool, v: i64) -> SpecFieldValue {
    SpecFieldValue {
        field_def,
        base_type,
        type_enum: FieldType::FieldTypeSInt,
        value_sint: v,
        is_dev_field: is_dev,
        ..spec_empty_field()
    }
}

/// A floating-point decoded field value, carried as its bit pattern.
pub open spec fn spec_float_field(field_def: u8, base_type: u8, is_dev: bool, bits: u64) -> SpecFieldValue {
    SpecFieldValue {
        field_def,
        base_type,
        type_enum: FieldType::FieldTypeFloat,
        value_float_bits: bits,
        is_dev_field: is_dev,
        ..spec_empty_field()
    }
}

/// A string decoded field value.
pub open spec fn spec_str_field(field_def: u8, base_type: u8, is_dev: bool, s: Seq<char>) -> SpecFieldValue {
    SpecFieldValue {
        field_def,
        base_type,
        type_enum: FieldType::FieldTypeStr,
        value_string: s,
        is_dev_field: is_dev,
        ..spec_empty_field()
    }
}

/// A raw byte-array decoded field value.
pub open spec fn spec_bytes_field(field_def: u8, base_type: u8, is_dev: bool, b: Seq<u8>) -> SpecFieldValue {
    SpecFieldValue {
        field_def,
        base_type,
        type_enum: FieldType::FieldTypeByteArray,
        value_byte_array: b,
        is_dev_field: is_dev,
        ..spec_empty_field()
    }
}

/// What the codec makes of one field's bytes `d` under the declared base
/// type and endianness. Fixed-width numeric types use their implied width
/// and fail with `TruncatedInput` when fewer bytes were declared; strings
/// and byte arrays use the declared size verbatim. Floating-point bit
/// patterns are big-endian on the wire regardless of the declared
/// endianness. An unrecognized tag fails with `UnsupportedBaseType`.
pub open spec fn spec_field_value(
    field_def: u8,
    is_dev: bool,
    base_type: u8,
    d: Seq<u8>,
    is_big_endian: bool,
) -> Result<SpecFieldValue, FitError> {
    if uint_width(base_type) != 0 {
        let w = uint_width(base_type);
        if d.len() < w {
            Err(FitError::TruncatedInput)
        } else {
            Ok(spec_uint_field(field_def, base_type, is_dev,
                spec_uint(d.take(w), is_big_endian) as u64))
        }
    } else if sint_width(base_type) != 0 {
        let w = sint_width(base_type);
        if d.len() < w {
            Err(FitError::TruncatedInput)
        } else {
            Ok(spec_sint_field(field_def, base_type, is_dev,
                sint_val(spec_uint(d.take(w), is_big_endian), w) as i64))
        }
    } else if float_width(base_type) != 0 {
        let w = float_width(base_type);
        if d.len() < w {
            Err(FitError::TruncatedInput)
        } else {
            Ok(spec_float_field(field_def, base_type, is_dev, be_uint(d.take(w)) as u64))
        }
    } else if base_type == 0x07 {
        Ok(spec_str_field(field_def, base_type, is_dev, string_of_bytes(d)))
    } else if base_type == 0x0D {
        Ok(spec_bytes_field(field_def, base_type, is_dev, d))
    } else {
        Err(FitError::UnsupportedBaseType(base_type))
    }
}

/// Decodes one field's bytes per the declared base type and endianness.
/// `data` holds exactly the bytes the field definition declared for the
/// field.
pub fn decode_field_value(
    field_def: u8,
    is_dev: bool,
    base_type: u8,
    data: &Vec<u8>,
    is_big_endian: bool,
) -> (r: Result<FitFieldValue, FitError>)
    ensures
        ({
            let s = spec_field_value(field_def, is_dev, base_type, data@, is_big_endian);
            match r {
                Ok(f) => s == Ok::<SpecFieldValue, FitError>(f@),
                Err(e) => s == Err::<SpecFieldValue, FitError>(e),
            }
        }),
{
    let mut field = FitFieldValue::new();
    field.field_def = field_def;
    field.base_type = base_type;
    field.is_dev_field = is_dev;
    let uw: usize = if base_type == 0x00 || base_type == 0x02 || base_type == 0x0A {
        1
    } else if base_type == 0x84 || base_type == 0x8B {
        2
    } else if base_type == 0x86 || base_type == 0x8C {
        4
    } else if base_type == 0x8F || base_type == 0x90 {
        8
    } else {
        0
    };
    let sw: usize = if base_type == 0x01 {
        1
    } else if base_type == 0x83 {
        2
    } else if base_type == 0x85 {
        4
    } else if base_type == 0x8E {
        8
    } else {
        0
    };
    let fw: usize = if base_type == 0x88 {
        4
    } else if base_type == 0x89 {
        8
    } else {
        0
    };
    if uw != 0 {
        if data.len() < uw {
            return Err(FitError::TruncatedInput);
        }
        let v = read_uint(data, 0, uw, is_big_endian);
        proof {
            assert(data@.subrange(0, uw as int) =~= data@.take(uw as int));
        }
        field.value_uint = v;
        field.type_enum = FieldType::FieldTypeUInt;
        proof {
            assert(field@ =~= spec_uint_field(field_def, base_type, is_dev, v));
        }
        Ok(field)
    } else if sw != 0 {
        if data.len() < sw {
            return Err(FitError::TruncatedInput);
        }
        let v = read_uint(data, 0, sw, is_big_endian);
        proof {
            assert(data@.subrange(0, sw as int) =~= data@.take(sw as int));
            lemma_uint_bounds(data@.take(sw as int));
            assert(pow256(1) == 0x100 && pow256(2) == 0x10000 && pow256(4) == 0x1_0000_0000) by {
                reveal_with_fuel(pow256, 5);
            }
        }
        let sv = signed_of_uint(v, sw);
        field.value_sint = sv;
        field.type_enum = FieldType::FieldTypeSInt;
        proof {
            assert(field@ =~= spec_sint_field(field_def, base_type, is_dev, sv));
        }
        Ok(field)
    } else if fw != 0 {
        if data.len() < fw {
            return Err(FitError::TruncatedInput);
        }
        let bits = read_uint(data, 0, fw, true);
        proof {
            assert(data@.subrange(0, fw as int) =~= data@.take(fw as int));
        }
        field.value_float_bits = bits;
        field.type_enum = FieldType::FieldTypeFloat;
        proof {
            assert(field@ =~= spec_float_field(field_def, base_type, is_dev, bits));
        }
        Ok(field)
    } else if base_type == 0x07 {
        let s = byte_array_to_string(data, data.len());
        proof {
            assert(data@.take(data@.len() as int) =~= data@);
        }
        field.value_string = s;
        field.type_enum = FieldType::FieldTypeStr;
        proof {
            assert(field@ =~= spec_str_field(field_def, base_type, is_dev, string_of_bytes(data@)));
        }
        Ok(field)
    } else if base_type == 0x0D {
        field.value_byte_array = data.clone();
        field.type_enum = FieldType::FieldTypeByteArray;
        proof {
            assert(field@ =~= spec_bytes_field(field_def, base_type, is_dev, data@));
        }
        Ok(field)
    } else {
        Err(FitError::UnsupportedBaseType(base_type))
    }
}

} // verus!
