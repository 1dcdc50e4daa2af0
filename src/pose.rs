//! Simulation poses and the transforms a presentation layer reads.
use vstd::prelude::*;

verus! {

/// A simulation-space position in fixed-point length units.
#[derive(Clone, Copy, Debug, PartialEq, Eq, Structural)]
pub struct Point {
    pub x: i64,
    pub y: i64,
    pub z: i64,
}

/// A rotation quaternion with fixed-point components.
#[derive(Clone, Copy, Debug, PartialEq, Eq, Structural)]
pub struct Quaternion {
    pub x: i64,
    pub y: i64,
    pub z: i64,
    pub w: i64,
}

/// A simulation-space orientation.
#[derive(Clone, Copy, Debug, PartialEq, Eq, Structural)]
pub enum Rotation {
    /// A planar rotation by an angle in thousandths of a degree.
    Planar(i64),
    /// A spatial rotation given as a unit quaternion.
    Spatial(Quaternion),
}

/// The spatial dimension a simulation was configured with.
#[derive(Clone, Copy, Debug, PartialEq, Eq, Structural)]
pub enum Dimension {
    Two,
    Three,
}

/// The rotation of a presentation transform.
#[derive(Clone, Copy, Debug, PartialEq, Eq, Structural)]
pub enum PresentationRotation {
    /// The quaternion of a rotation about the out-of-plane axis by an angle in
    /// thousandths of a degree.
    AboutZ(i64),
    /// A quaternion given component by component.
    Quat(Quaternion),
}

/// The pose as the presentation layer consumes it.
#[derive(Clone, Copy, Debug, PartialEq, Eq, Structural)]
pub struct Transform {
    pub translation: Point,
    pub rotation: PresentationRotation,
}

/// The translation a presentation transform takes from a position: in two dimensions
/// the planar coordinates with a zero depth, in three the position itself.
pub open spec fn translation_of(pos: Point, dim: Dimension) -> Point {
    match dim {
        Dimension::Two => Point { x: pos.x, y: pos.y, z: 0 },
        Dimension::Three => pos,
    }
}

/// The presentation rotation of a simulation rotation: a planar angle becomes the
/// rotation about the out-of-plane axis by that angle, a quaternion passes unchanged.
pub open spec fn rotation_of(rot: Rotation) -> PresentationRotation {
    match rot {
        Rotation::Planar(a) => PresentationRotation::AboutZ(a),
        Rotation::Spatial(q) => PresentationRotation::Quat(q),
    }
}

pub open spec fn transform_of(pos: Point, rot: Rotation, dim: Dimension) -> Transform {
    Transform { translation: translation_of(pos, dim), rotation: rotation_of(rot) }
}

/// Maps a simulation pose to its presentation transform.
pub fn to_transform(pos: &Point, rot: &Rotation, dim: Dimension) -> (r: Transform)
    ensures
        r == transform_of(*pos, *rot, dim),
{
    let translation = match dim {
        Dimension::Two => Point { x: pos.x, y: pos.y, z: 0 },
        Dimension::Three => *pos,
    };
    let rotation = match rot {
        Rotation::Planar(a) => PresentationRotation::AboutZ(*a),
        Rotation::Spatial(q) => PresentationRotation::Quat(*q),
    };
    Transform { translation, rotation }
}

} // verus!
