use vstd::prelude::*;

verus! {

/// Bit 7 of a byte, its sign as a two's-complement number.
pub open spec fn spec_negative(value: u8) -> bool {
    value >= 0x80
}

proof fn lemma_sign_bit(value: u8)
    ensures
        (value & 0x80 != 0) == (value >= 0x80),
{
    assert((value & 0x80 != 0) == (value >= 0x80)) by (bit_vector);
}

pub fn is_negative(value: u8) -> (r: bool)
    ensures
        r == spec_negative(value),
{
    proof {
        lemma_sign_bit(value);
    }
    value & 0b1000_0000 != 0
}

/// Signed overflow of an addition `a + b` whose low byte is `result`: the
/// operands share a sign and the result has the other one.
pub open spec fn spec_overflows_positive(result: u16, a: u8, b: u8) -> bool {
    spec_negative(a) == spec_negative(b) && spec_negative(a) != spec_negative(result as u8)
}

/// Signed overflow of a subtraction `a - b` whose low byte is `result`: the
/// operands differ in sign and the result's sign is not `a`'s.
pub open spec fn spec_overflows_negative(result: u16, a: u8, b: u8) -> bool {
    spec_negative(a) != spec_negative(b) && spec_negative(a) != spec_negative(result as u8)
}

pub fn overflows_positive(result: u16, a: u8, b: u8) -> (r: bool)
    ensures
        r == spec_overflows_positive(result, a, b),
{
    let a_neg = is_negative(a);
    let b_neg = is_negative(b);
    let result_neg = is_negative(result as u8);

    if a_neg == b_neg && a_neg != result_neg {
        return true;
    }
    false
}

pub fn overflows_negative(result: u16, a: u8, b: u8) -> (r: bool)
    ensures
        r == spec_overflows_negative(result, a, b),
{
    let a_neg = is_negative(a);
    let b_neg = is_negative(b);
    let result_neg = is_negative(result as u8);

    if a_neg != b_neg && a_neg != result_neg {
        return true;
    }
    false
}

} // verus!
