//! Position, orientation and scale of an entity.
use vstd::prelude::*;

use crate::geometry::Vec3i;

verus! {

/// The order in which the three Euler angles of a rotation are applied.
#[derive(Clone, Copy, Debug, PartialEq, Eq, Structural)]
pub enum EulerOrder {
    Xyz,
    Zyx,
}

/// A rotation as three Euler angles in thousandths of a degree; `first` turns
/// about the first axis that `order` names, and so on.
#[derive(Clone, Copy, Debug, PartialEq, Eq, Structural)]
pub struct Rotation {
    pub order: EulerOrder,
    pub first: i64,
    pub second: i64,
    pub third: i64,
}

/// Translation in thousandths of a world unit, rotation, and scale per axis in
/// thousandths (1000 leaves an axis as it is).
#[derive(Clone, Copy, Debug, PartialEq, Eq, Structural)]
pub struct Transform {
    pub translation: Vec3i,
    pub rotation: Rotation,
    pub scale: Vec3i,
}

/// One world unit, and the scale factor that leaves an axis as it is.
pub const UNIT: i64 = 1000;

pub open spec fn identity_spec() -> Transform {
    Transform {
        translation: Vec3i { x: 0, y: 0, z: 0 },
        rotation: Rotation { order: EulerOrder::Xyz, first: 0, second: 0, third: 0 },
        scale: Vec3i { x: UNIT, y: UNIT, z: UNIT },
    }
}

impl Transform {
    /// No translation, no rotation, unit scale.
    pub fn identity() -> (r: Transform)
        ensures
            r == identity_spec(),
    {
        Transform {
            translation: Vec3i { x: 0, y: 0, z: 0 },
            rotation: Rotation { order: EulerOrder::Xyz, first: 0, second: 0, third: 0 },
            scale: Vec3i { x: UNIT, y: UNIT, z: UNIT },
        }
    }

    /// The identity moved to `(x, y, z)`.
    pub fn from_xyz(x: i64, y: i64, z: i64) -> (r: Transform)
        ensures
            r == (Transform { translation: Vec3i { x, y, z }, ..identity_spec() }),
    {
        Transform { translation: Vec3i { x, y, z }, ..Transform::identity() }
    }
}

} // verus!
