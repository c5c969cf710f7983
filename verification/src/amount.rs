use crate::error::ErrorCode;
use vstd::prelude::*;

verus! {

/// The share `numerator / denominator` of `base`, rounded down.
pub open spec fn percentage_of(base: int, numerator: int, denominator: int) -> int
    recommends
        denominator > 0,
{
    (base * numerator) / denominator
}

/// A share at a rate of at most one lies between zero and the base.
pub proof fn lemma_percentage_bounded(base: int, numerator: int, denominator: int)
    requires
        0 <= base,
        0 <= numerator <= denominator,
        denominator > 0,
    ensures
        0 <= percentage_of(base, numerator, denominator) <= base,
{
    assert(0 <= base * numerator <= base * denominator) by (nonlinear_arith)
        requires
            0 <= base,
            0 <= numerator <= denominator,
    ;
    assert(0 <= (base * numerator) / denominator <= base) by (nonlinear_arith)
        requires
            0 <= base * numerator <= base * denominator,
            denominator > 0,
    ;
}

/// Computes `floor(base * numerator / denominator)` with a 128-bit product.
///
/// The product itself never overflows; the call fails with
/// `ErrorCode::Overflow` exactly when the quotient does not fit in 64 bits,
/// which cannot happen for a rate of at most one.
pub fn percentage(base: u64, numerator: u64, denominator: u64) -> (r: Result<u64, ErrorCode>)
    requires
        denominator > 0,
    ensures
        match r {
            Ok(v) => v == percentage_of(base as int, numerator as int, denominator as int),
            Err(e) => e == ErrorCode::Overflow && percentage_of(
                base as int,
                numerator as int,
                denominator as int,
            ) > u64::MAX,
        },
        numerator <= denominator ==> r is Ok && r->Ok_0 <= base,
{
    proof {
        assert(0 <= base * numerator <= 0xFFFF_FFFF_FFFF_FFFF * 0xFFFF_FFFF_FFFF_FFFF)
            by (nonlinear_arith)
            requires
                0 <= base <= 0xFFFF_FFFF_FFFF_FFFF,
                0 <= numerator <= 0xFFFF_FFFF_FFFF_FFFF,
        ;
        if numerator <= denominator {
            lemma_percentage_bounded(base as int, numerator as int, denominator as int);
        }
    }
    let product: u128 = (base as u128) * (numerator as u128);
    let quotient: u128 = product / (denominator as u128);
    if quotient > u64::MAX as u128 {
        Err(ErrorCode::Overflow)
    } else {
        Ok(quotient as u64)
    }
}

/// Adds `delta` to `balance`, failing with `ErrorCode::Overflow` exactly when
/// the sum does not fit in 64 bits.
pub fn accrue(balance: u64, delta: u64) -> (r: Result<u64, ErrorCode>)
    ensures
        match r {
            Ok(v) => v == balance + delta,
            Err(e) => e == ErrorCode::Overflow && balance + delta > u64::MAX,
        },
{
    if delta > u64::MAX - balance {
        Err(ErrorCode::Overflow)
    } else {
        Ok(balance + delta)
    }
}

} // verus!
