//! The controller's tunable numbers.
//!
//! Each constant is the encoding of the binary32 nearest to the decimal in its
//! description; wrap it in a [`Scalar`] to compare with it.

use vstd::prelude::*;
use vstd::arithmetic::power2::{lemma2_to64, lemma_pow2_unfold};
use crate::scalar::Scalar;

verus! {

/// 0.05: the farthest a source may be from the capture volume and still grab.
pub const CAPTURE_DISTANCE: u32 = 0x3d4c_cccd;

/// 0.90: the grip value that a grab must exceed.
pub const GRIP_THRESHOLD: u32 = 0x3f66_6666;

/// 0.03: the gap between thumb tip and index tip under which a hand pinches.
pub const PINCH_GAP: u32 = 0x3cf5_c28f;

/// 0.01: the select value that a pointer's glide must exceed.
pub const SELECT_THRESHOLD: u32 = 0x3c23_d70a;

/// 0.001: the squared speed that motion must exceed to move the offset.
pub const MOTION_THRESHOLD: u32 = 0x3a83_126f;

/// 0.99: the factor by which the velocity shrinks every frame, whatever the
/// frame's duration.
pub const DAMPING: u32 = 0x3f7d_70a4;

/// 0.9: the exponent of the response curve, which turns the length of a pull
/// into the size of its impulse.
pub const RESPONSE_EXPONENT: u32 = 0x3f66_6666;

/// The thresholds are the correctly rounded encodings of their decimals.
pub proof fn lemma_thresholds_round()
    ensures
        (Scalar { bits: CAPTURE_DISTANCE }).rounds(5, 100),
        (Scalar { bits: GRIP_THRESHOLD }).rounds(90, 100),
        (Scalar { bits: PINCH_GAP }).rounds(3, 100),
        (Scalar { bits: SELECT_THRESHOLD }).rounds(1, 100),
        (Scalar { bits: MOTION_THRESHOLD }).rounds(1, 1000),
        (Scalar { bits: DAMPING }).rounds(99, 100),
        (Scalar { bits: RESPONSE_EXPONENT }).rounds(9, 10),
{
    lemma2_to64();
    lemma_pow2_unfold(33);
}

} // verus!
