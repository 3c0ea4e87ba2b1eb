//! Single-bit and multi-bit field access on 32-bit register words.
use vstd::prelude::*;

verus! {

/// Bit `n` of `reg` is set.
pub open spec fn bit(reg: u32, n: u32) -> bool {
    (reg >> n) & 1 == 1
}

/// `reg` with bit `n` set.
pub open spec fn with_bit(reg: u32, n: u32) -> u32 {
    reg | (1u32 << n)
}

/// `reg` with bit `n` cleared.
pub open spec fn without_bit(reg: u32, n: u32) -> u32 {
    reg & !(1u32 << n)
}

/// `reg` with bit `n` set to `v`.
pub open spec fn with_bit_as(reg: u32, n: u32, v: bool) -> u32 {
    if v {
        with_bit(reg, n)
    } else {
        without_bit(reg, n)
    }
}

/// The field of `reg` that starts at bit `shift` and is selected by `mask`
/// (a mask of the field's width, aligned at bit 0).
pub open spec fn field(reg: u32, shift: u32, mask: u32) -> u32 {
    (reg >> shift) & mask
}

/// `reg` with the field at `shift` and `mask` replaced by `value & mask`.
pub open spec fn with_field(reg: u32, shift: u32, mask: u32, value: u32) -> u32 {
    (reg & !(mask << shift)) | ((value & mask) << shift)
}

/// Returns whether bit `n` of `reg` is set.
pub fn is_set(reg: u32, n: u32) -> (r: bool)
    requires
        n < 32,
    ensures
        r == bit(reg, n),
{
    (reg >> n) & 1 == 1
}

/// Returns `reg` with bit `n` set to `v`.
pub fn write_bit(reg: u32, n: u32, v: bool) -> (r: u32)
    requires
        n < 32,
    ensures
        r == with_bit_as(reg, n, v),
        bit(r, n) == v,
        forall|m: u32| m < 32 && m != n ==> bit(r, m) == bit(reg, m),
{
    proof {
        lemma_write_bit(reg, n, v);
    }
    if v {
        reg | (1u32 << n)
    } else {
        reg & !(1u32 << n)
    }
}

/// Returns the field of `reg` at `shift` selected by `mask`.
pub fn read_field(reg: u32, shift: u32, mask: u32) -> (r: u32)
    requires
        shift < 32,
    ensures
        r == field(reg, shift, mask),
        r <= mask,
{
    assert(((reg >> shift) & mask) <= mask) by (bit_vector);
    (reg >> shift) & mask
}

/// Returns `reg` with the field at `shift` and `mask` replaced by
/// `value & mask`.
pub fn write_field(reg: u32, shift: u32, mask: u32, value: u32) -> (r: u32)
    requires
        shift < 32,
    ensures
        r == with_field(reg, shift, mask, value),
{
    (reg & !(mask << shift)) | ((value & mask) << shift)
}

/// Writing one bit sets that bit as asked and keeps every other bit.
pub proof fn lemma_write_bit(reg: u32, n: u32, v: bool)
    requires
        n < 32,
    ensures
        bit(with_bit_as(reg, n, v), n) == v,
        forall|m: u32| m < 32 && m != n ==> #[trigger] bit(with_bit_as(reg, n, v), m) == bit(reg, m),
{
    assert(((reg | (1u32 << n)) >> n) & 1 == 1) by (bit_vector)
        requires
            n < 32,
    ;
    assert(((reg & !(1u32 << n)) >> n) & 1 == 0) by (bit_vector)
        requires
            n < 32,
    ;
    assert forall|m: u32| m < 32 && m != n implies #[trigger] bit(with_bit_as(reg, n, v), m) == bit(
        reg,
        m,
    ) by {
        assert(((reg | (1u32 << n)) >> m) & 1 == (reg >> m) & 1) by (bit_vector)
            requires
                n < 32,
                m < 32,
                m != n,
        ;
        assert(((reg & !(1u32 << n)) >> m) & 1 == (reg >> m) & 1) by (bit_vector)
            requires
                n < 32,
                m < 32,
                m != n,
        ;
    }
}

} // verus!
