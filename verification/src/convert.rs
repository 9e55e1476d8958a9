use vstd::prelude::*;

verus! {

/// Two's-complement reading of a signed 64-bit value as an unsigned one:
/// non-negative values keep their value, negative ones wrap to `v + 2^64`.
pub open spec fn unsigned_of(v: i64) -> int {
    if v >= 0 {
        v as int
    } else {
        v + 0x1_0000_0000_0000_0000
    }
}

/// Two's-complement reading of an unsigned 64-bit value as a signed one.
pub open spec fn signed_of(v: u64) -> int {
    if v <= i64::MAX {
        v as int
    } else {
        v - 0x1_0000_0000_0000_0000
    }
}

/// Two's-complement reading of an unsigned 32-bit value as a signed one.
pub open spec fn signed32_of(v: u32) -> int {
    if v <= i32::MAX {
        v as int
    } else {
        v - 0x1_0000_0000
    }
}

/// Reinterprets the bits of a signed 64-bit value as unsigned, the way a
/// binding's `long` timestamps and timeouts are handed to Zenoh.
pub fn as_unsigned(v: i64) -> (r: u64)
    ensures
        r == unsigned_of(v),
{
    let r = v as u64;
    assert(r == (if v >= 0 { v as int } else { v + 0x1_0000_0000_0000_0000 })) by (bit_vector)
        requires
            r == v as u64,
    ;
    r
}

/// Reinterprets the bits of an unsigned 64-bit value as signed, the way Zenoh
/// timestamps are handed back to a binding's `long`.
pub fn as_signed(v: u64) -> (r: i64)
    ensures
        r == signed_of(v),
{
    let r = v as i64;
    assert(r == (if v <= 0x7fff_ffff_ffff_ffff { v as int } else { v - 0x1_0000_0000_0000_0000 })) by (bit_vector)
        requires
            r == v as i64,
    ;
    r
}

/// Reinterprets the bits of an unsigned 32-bit entity id as a signed `int`.
pub fn as_signed32(v: u32) -> (r: i32)
    ensures
        r == signed32_of(v),
{
    let r = v as i32;
    assert(r == (if v <= 0x7fff_ffff { v as int } else { v - 0x1_0000_0000 })) by (bit_vector)
        requires
            r == v as i32,
    ;
    r
}

/// Reading a signed value as unsigned and back gives the value again, and the
/// other way round: no timestamp is lost crossing the binding boundary.
pub proof fn lemma_signed_unsigned_round_trip(a: i64, b: u64)
    ensures
        signed_of(unsigned_of(a) as u64) == a,
        unsigned_of(signed_of(b) as i64) == b,
{
}

/// Unsigned values up to `i64::MAX` read back unchanged as signed, higher
/// ones wrap to `v - 2^64`; the same holds for 32-bit entity ids.
pub proof fn lemma_signed_of_value(v: u64, e: u32)
    ensures
        v <= i64::MAX ==> signed_of(v) == v,
        v > i64::MAX ==> signed_of(v) == v - 0x1_0000_0000_0000_0000,
        e <= i32::MAX ==> signed32_of(e) == e,
        e > i32::MAX ==> signed32_of(e) == e - 0x1_0000_0000,
{
}

/// Non-negative values cross unchanged; negative ones land above `i64::MAX`.
pub proof fn lemma_unsigned_of_sign(v: i64)
    ensures
        v >= 0 ==> unsigned_of(v) == v,
        v < 0 ==> unsigned_of(v) > i64::MAX,
        v < 0 ==> unsigned_of(v) == v + 0x1_0000_0000_0000_0000,
        0 <= unsigned_of(v) <= u64::MAX,
{
}

} // verus!
