//! Three-component fixed-point vectors and the squared quantities compared against
//! the sleeping thresholds.
use vstd::prelude::*;

verus! {

/// A signed three-component quantity: a linear or angular velocity, a force or a torque.
///
/// A planar configuration leaves `z` at zero for linear quantities and stores its
/// scalar angular quantity in `z` alone.
#[derive(Clone, Copy, Debug, PartialEq, Eq, Structural)]
pub struct Vector {
    pub x: i32,
    pub y: i32,
    pub z: i32,
}

/// `t * |t|`: the square of `t` carrying the sign of `t`.
pub open spec fn signed_square(t: int) -> int {
    if t < 0 {
        -(t * t)
    } else {
        t * t
    }
}

/// A squared speed is below a threshold when it is strictly less than the threshold's
/// signed square; a negative threshold is therefore never met.
pub open spec fn below_threshold(speed_sq: int, threshold: int) -> bool {
    speed_sq < signed_square(threshold)
}

proof fn lemma_square_bound(a: int)
    by (nonlinear_arith)
    requires
        i32::MIN <= a <= i32::MAX,
    ensures
        0 <= a * a <= 0x4000_0000_0000_0000,
{
}

impl Vector {
    /// The squared Euclidean length, as a mathematical integer.
    pub open spec fn length_sq(self) -> int {
        self.x * self.x + self.y * self.y + self.z * self.z
    }

    pub open spec fn is_zero(self) -> bool {
        self.x == 0 && self.y == 0 && self.z == 0
    }

    /// The zero vector.
    pub fn zero() -> (r: Vector)
        ensures
            r.is_zero(),
    {
        Vector { x: 0, y: 0, z: 0 }
    }

    pub fn new(x: i32, y: i32, z: i32) -> (r: Vector)
        ensures
            r.x == x && r.y == y && r.z == z,
    {
        Vector { x, y, z }
    }

    /// The squared length, which is also the dot product of the vector with itself.
    pub fn length_squared(&self) -> (r: u64)
        ensures
            r as int == self.length_sq(),
    {
        let x = self.x as i64;
        let y = self.y as i64;
        let z = self.z as i64;
        proof {
            lemma_square_bound(x as int);
            lemma_square_bound(y as int);
            lemma_square_bound(z as int);
        }
        let xx = (x * x) as u64;
        let yy = (y * y) as u64;
        let zz = (z * z) as u64;
        xx + yy + zz
    }
}

/// The signed square `t * |t|` of a threshold.
pub fn threshold_sq(t: i32) -> (r: i64)
    ensures
        r as int == signed_square(t as int),
{
    let t = t as i64;
    proof {
        lemma_square_bound(t as int);
    }
    if t < 0 {
        -(t * t)
    } else {
        t * t
    }
}

/// Whether a squared speed lies strictly below the signed square of a threshold.
pub fn is_below_threshold(speed_sq: u64, threshold: i32) -> (r: bool)
    ensures
        r == below_threshold(speed_sq as int, threshold as int),
{
    let t_sq = threshold_sq(threshold);
    t_sq > 0 && speed_sq < t_sq as u64
}

} // verus!
