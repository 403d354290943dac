//! Position model: a place in space with the directions a listener faces.
//!
//! Every coordinate is held as the bit pattern of an IEEE-754 single-precision
//! number, so that a value passes through the library unchanged, bit for bit.

use vstd::prelude::*;

verus! {

/// Bit pattern of `0.005`.
pub const NEAR_ZERO_BITS: u32 = 0x3BA3_D70A;

/// Bit pattern of `0.0`.
pub const ZERO_BITS: u32 = 0;

/// Bit pattern of `1.0`.
pub const ONE_BITS: u32 = 0x3F80_0000;

/// Bit pattern of `-1.0`.
pub const MINUS_ONE_BITS: u32 = 0xBF80_0000;

/// The sign bit of a single-precision number.
pub const SIGN_BIT: u32 = 0x8000_0000;

/// A position in space together with the forward and up directions.
///
/// `dir` and `up` are meant to be unit vectors at right angles; the library
/// carries whatever the producer sent and checks neither.
#[verifier::ext_equal]
#[derive(Clone, Copy, Debug, PartialEq, Eq)]
pub struct MPos {
    /// The character's position in space.
    pub pos: [u32; 3],
    /// A unit vector pointing out of the character's eyes.
    pub dir: [u32; 3],
    /// A unit vector pointing out of the top of the character's head.
    pub up: [u32; 3],
}

/// The three coordinates `x`, `y`, `z` as a sequence.
pub open spec fn triple(x: u32, y: u32, z: u32) -> Seq<u32> {
    seq![x, y, z]
}

/// The vector `v` with the sign of its third coordinate inverted.
pub open spec fn flipped_z(v: Seq<u32>) -> Seq<u32> {
    triple(v[0], v[1], v[2] ^ SIGN_BIT)
}

/// The position that stands for "nowhere in particular": a point close to the
/// origin, facing down the negative Z axis, with Y up.
pub open spec fn near_zero() -> MPos {
    MPos {
        pos: [NEAR_ZERO_BITS, NEAR_ZERO_BITS, NEAR_ZERO_BITS],
        dir: [ZERO_BITS, ZERO_BITS, MINUS_ONE_BITS],
        up: [ZERO_BITS, ONE_BITS, ZERO_BITS],
    }
}

impl MPos {
    pub fn new(position: [u32; 3], front: [u32; 3], top: [u32; 3]) -> (r: Self)
        ensures
            r == (MPos { pos: position, dir: front, up: top }),
    {
        MPos { pos: position, dir: front, up: top }
    }

    /// A position whose nine coordinates are all `x`.
    pub fn example(x: u32) -> (r: Self)
        ensures
            r == (MPos { pos: [x, x, x], dir: [x, x, x], up: [x, x, x] }),
    {
        MPos { pos: [x, x, x], dir: [x, x, x], up: [x, x, x] }
    }

    /// This position seen in a coordinate system of the other handedness.
    pub open spec fn mirrored(self) -> MPos {
        MPos {
            pos: [self.pos[0], self.pos[1], self.pos[2] ^ SIGN_BIT],
            dir: [self.dir[0], self.dir[1], self.dir[2] ^ SIGN_BIT],
            up: [self.up[0], self.up[1], self.up[2] ^ SIGN_BIT],
        }
    }

    /// Mirrors the Z axis of the position and of both directions.
    pub fn mirror_z(&self) -> (r: Self)
        ensures
            r == self.mirrored(),
    {
        MPos { pos: vec_flip_z(self.pos), dir: vec_flip_z(self.dir), up: vec_flip_z(self.up) }
    }
}

/// Inverts the sign of the third coordinate and keeps the other two.
pub fn vec_flip_z(v: [u32; 3]) -> (r: [u32; 3])
    ensures
        r@ == flipped_z(v@),
{
    [v[0], v[1], v[2] ^ SIGN_BIT]
}

/// The sentinel pushed in place of a position that cannot be trusted.
pub fn position_near_zero() -> (r: MPos)
    ensures
        r == near_zero(),
{
    MPos {
        pos: [NEAR_ZERO_BITS, NEAR_ZERO_BITS, NEAR_ZERO_BITS],
        dir: [ZERO_BITS, ZERO_BITS, MINUS_ONE_BITS],
        up: [ZERO_BITS, ONE_BITS, ZERO_BITS],
    }
}

} // verus!
