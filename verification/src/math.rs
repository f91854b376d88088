use vstd::prelude::*;

verus! {

/// The product of two numbers of 64 bits. It fits 128 bits, and leaves
/// room there for another number of 64 bits.
pub fn wide_product(a: u64, b: u64) -> (product: u128)
    ensures
        product == a * b,
        product <= 0xffff_ffff_ffff_fffe_0000_0000_0000_0001,
{
    assert(0 <= a * b <= 0xffff_ffff_ffff_ffff * 0xffff_ffff_ffff_ffff) by (nonlinear_arith)
        requires
            0 <= a <= 0xffff_ffff_ffff_ffff,
            0 <= b <= 0xffff_ffff_ffff_ffff,
    ;
    (a as u128) * (b as u128)
}

} // verus!
