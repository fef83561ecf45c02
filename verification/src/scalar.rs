use vstd::prelude::*;

verus! {

/// Bit pattern of `0.0`.
pub const ZERO_BITS: u32 = 0x0000_0000;

/// Bit pattern of `1.0`.
pub const ONE_BITS: u32 = 0x3f80_0000;

/// Bit pattern of `-1.0`.
pub const NEG_ONE_BITS: u32 = 0xbf80_0000;

/// Bit pattern of `0.25`.
pub const QUARTER_BITS: u32 = 0x3e80_0000;

/// A single-precision number carried by its IEEE-754 bit pattern.
///
/// The library never computes with such a value: it is routed, unchanged,
/// from the caller into a shader uniform or a texel.
#[derive(Clone, Copy, PartialEq, Eq, Structural, Debug)]
pub struct Scalar {
    pub bits: u32,
}

/// Two scalars: a position or a displacement in texture space.
#[derive(Clone, Copy, PartialEq, Eq, Structural, Debug)]
pub struct Vector2 {
    pub x: Scalar,
    pub y: Scalar,
}

/// Three scalars: a colour, red first.
#[derive(Clone, Copy, PartialEq, Eq, Structural, Debug)]
pub struct Vector3 {
    pub x: Scalar,
    pub y: Scalar,
    pub z: Scalar,
}

impl Scalar {
    pub open spec fn spec_zero() -> Scalar {
        Scalar { bits: ZERO_BITS }
    }

    pub open spec fn spec_one() -> Scalar {
        Scalar { bits: ONE_BITS }
    }

    pub open spec fn spec_neg_one() -> Scalar {
        Scalar { bits: NEG_ONE_BITS }
    }

    pub open spec fn spec_quarter() -> Scalar {
        Scalar { bits: QUARTER_BITS }
    }

    /// The scalar `0.0`.
    #[verifier::when_used_as_spec(spec_zero)]
    pub fn zero() -> (s: Scalar)
        ensures
            s == Scalar::spec_zero(),
    {
        Scalar { bits: ZERO_BITS }
    }

    /// The scalar `1.0`.
    #[verifier::when_used_as_spec(spec_one)]
    pub fn one() -> (s: Scalar)
        ensures
            s == Scalar::spec_one(),
    {
        Scalar { bits: ONE_BITS }
    }

    /// The scalar `-1.0`.
    #[verifier::when_used_as_spec(spec_neg_one)]
    pub fn neg_one() -> (s: Scalar)
        ensures
            s == Scalar::spec_neg_one(),
    {
        Scalar { bits: NEG_ONE_BITS }
    }

    /// The scalar `0.25`.
    #[verifier::when_used_as_spec(spec_quarter)]
    pub fn quarter() -> (s: Scalar)
        ensures
            s == Scalar::spec_quarter(),
    {
        Scalar { bits: QUARTER_BITS }
    }
}

} // verus!
