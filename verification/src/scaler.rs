//! A worked owner type, verified end to end: a three-stage integer pipeline
//! whose range guards are discharged by proof and whose cascade is pinned to
//! an exact arithmetic result.

use crate::Cascade;
use crate::Chain;
use crate::InRange;
use crate::L;
use crate::Len;
use crate::Length;
use vstd::prelude::*;

verus! {

/// An owner type with three stages: double a byte into a wider word,
/// square that, and finish with a successor step.
pub struct Scaler;

impl Length for Scaler {
    type Len = L<3>;
}

impl InRange<0> for Scaler {
    proof fn range_guard() {}
}

impl InRange<1> for Scaler {
    proof fn range_guard() {}
}

impl InRange<2> for Scaler {
    proof fn range_guard() {}
}

impl Chain<0> for Scaler {
    type In = u8;
    type Out = u16;

    open spec fn chain_spec(input: u8) -> u16 {
        (2 * input) as u16
    }

    fn chain(input: u8) -> (out: u16) {
        2 * (input as u16)
    }
}

impl Chain<1> for Scaler {
    type In = u16;
    type Out = u32;

    open spec fn chain_spec(input: u16) -> u32 {
        (input * input) as u32
    }

    fn chain(input: u16) -> (out: u32) {
        proof {
            assert((input as int) * (input as int) <= 65535 * 65535) by (nonlinear_arith)
                requires
                    0 <= input <= 65535,
            ;
        }
        (input as u32) * (input as u32)
    }
}

impl Chain<2> for Scaler {
    type In = u32;
    type Out = u64;

    open spec fn chain_spec(input: u32) -> u64 {
        (input + 1) as u64
    }

    fn chain(input: u32) -> (out: u64) {
        (input as u64) + 1
    }
}

/// Runs the whole pipeline; the contract gives the closed form of the
/// three stages composed.
pub fn scale(input: u8) -> (out: u64)
    ensures
        out == 4 * (input as int) * (input as int) + 1,
{
    proof {
        let i = input as int;
        assert((2 * i) * (2 * i) == 4 * i * i) by (nonlinear_arith);
        assert((2 * i) * (2 * i) <= 260100) by (nonlinear_arith)
            requires
                0 <= i <= 255,
        ;
    }
    Scaler::cascade(input)
}

} // verus!
