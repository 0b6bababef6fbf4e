//! Conversion of integer values into arrays of 64-bit words, least
//! significant word first, as consumed by arbitrary-precision integer
//! constants.

use vstd::prelude::*;

verus! {

/// The value of `v` in two's complement, as a nonnegative integer.
pub open spec fn spec_unsigned64(v: int) -> int {
    if v >= 0 {
        v
    } else {
        v + 0x10000000000000000
    }
}

/// The value of `v` in 128-bit two's complement, as a nonnegative integer.
pub open spec fn spec_unsigned128(v: int) -> int {
    if v >= 0 {
        v
    } else {
        v + 0x100000000000000000000000000000000
    }
}

/// An empty struct to convert integer types into 64-bit word arrays.
pub struct To64LLVMWord;

impl To64LLVMWord {
    /// Convert a u8 to a 64-bit word array.
    pub fn from_u8(value: u8) -> (r: [u64; 1])
        ensures
            r@ =~= seq![value as u64],
    {
        [value as u64]
    }

    /// Convert a u16 to a 64-bit word array.
    pub fn from_u16(value: u16) -> (r: [u64; 1])
        ensures
            r@ =~= seq![value as u64],
    {
        [value as u64]
    }

    /// Convert a u32 to a 64-bit word array.
    pub fn from_u32(value: u32) -> (r: [u64; 1])
        ensures
            r@ =~= seq![value as u64],
    {
        [value as u64]
    }

    /// Convert a u64 to a 64-bit word array.
    pub fn from_u64(value: u64) -> (r: [u64; 1])
        ensures
            r@ =~= seq![value],
    {
        [value]
    }

    /// Convert a u128 to a 64-bit word array, least significant word first.
    pub fn from_u128(value: u128) -> (r: [u64; 2])
        ensures
            r@.len() == 2,
            r@[0] == value as int % 0x10000000000000000,
            r@[1] == value as int / 0x10000000000000000,
    {
        let low = (value & 0xffff_ffff_ffff_ffff) as u64;
        let high = ((value >> 64) & 0xffff_ffff_ffff_ffff) as u64;
        proof {
            assert(low == value as int % 0x10000000000000000 && high == value as int
                / 0x10000000000000000) by (bit_vector)
                requires
                    low == (value & 0xffff_ffff_ffff_ffff) as u64,
                    high == ((value >> 64) & 0xffff_ffff_ffff_ffff) as u64,
            ;
        }
        [low, high]
    }

    /// Convert an i8 to a 64-bit word array, in two's complement.
    pub fn from_i8(value: i8) -> (r: [u64; 1])
        ensures
            r@.len() == 1,
            r@[0] == spec_unsigned64(value as int),
    {
        let word = #[verifier::truncate] (value as u64);
        proof {
            assert(word == spec_unsigned64(value as int)) by (bit_vector)
                requires
                    word == value as u64,
            ;
        }
        [word]
    }

    /// Convert an i16 to a 64-bit word array, in two's complement.
    pub fn from_i16(value: i16) -> (r: [u64; 1])
        ensures
            r@.len() == 1,
            r@[0] == spec_unsigned64(value as int),
    {
        let word = #[verifier::truncate] (value as u64);
        proof {
            assert(word == spec_unsigned64(value as int)) by (bit_vector)
                requires
                    word == value as u64,
            ;
        }
        [word]
    }

    /// Convert an i32 to a 64-bit word array, in two's complement.
    pub fn from_i32(value: i32) -> (r: [u64; 1])
        ensures
            r@.len() == 1,
            r@[0] == spec_unsigned64(value as int),
    {
        let word = #[verifier::truncate] (value as u64);
        proof {
            assert(word == spec_unsigned64(value as int)) by (bit_vector)
                requires
                    word == value as u64,
            ;
        }
        [word]
    }

    /// Convert an i64 to a 64-bit word array, in two's complement.
    pub fn from_i64(value: i64) -> (r: [u64; 1])
        ensures
            r@.len() == 1,
            r@[0] == spec_unsigned64(value as int),
    {
        let word = #[verifier::truncate] (value as u64);
        proof {
            assert(word == spec_unsigned64(value as int)) by (bit_vector)
                requires
                    word == value as u64,
            ;
        }
        [word]
    }

    /// Convert an i128 to a 64-bit word array, in two's complement, least
    /// significant word first.
    pub fn from_i128(value: i128) -> (r: [u64; 2])
        ensures
            r@.len() == 2,
            r@[0] == spec_unsigned128(value as int) % 0x10000000000000000,
            r@[1] == spec_unsigned128(value as int) / 0x10000000000000000,
    {
        let unsigned = #[verifier::truncate] (value as u128);
        proof {
            assert(unsigned == spec_unsigned128(value as int)) by (bit_vector)
                requires
                    unsigned == value as u128,
            ;
        }
        Self::from_u128(unsigned)
    }
}

} // verus!
