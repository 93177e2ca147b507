//! The spatial state of a game object: translation, rotation and scale,
//! in milli fixed point.
//!
//! Rotation is carried as accumulated Euler angles (milliradians per axis).
//! Composition with a rendering backend's matrices happens outside the
//! library; here the transform is plain data with exact update laws.

use vstd::prelude::*;

use crate::vec3::{Vec3, COORD_LIMIT, MILLI, milli_mul, spec_milli_mul};

verus! {

/// Saturating addition on `i64`, as a spec function.
pub open spec fn spec_sat_add(a: int, b: int) -> int {
    if a + b > i64::MAX {
        i64::MAX as int
    } else if a + b < i64::MIN {
        i64::MIN as int
    } else {
        a + b
    }
}

/// Saturating addition on `i64`.
pub fn sat_add(a: i64, b: i64) -> (r: i64)
    ensures
        r == spec_sat_add(a as int, b as int),
{
    let wide: i128 = (a as i128) + (b as i128);
    if wide > i64::MAX as i128 {
        i64::MAX
    } else if wide < i64::MIN as i128 {
        i64::MIN
    } else {
        wide as i64
    }
}

/// Position, orientation and per-axis scale of a game object.
#[derive(Clone, Copy, Debug, PartialEq, Eq, Structural)]
pub struct Transform {
    /// Position, milli units per axis.
    pub translation: Vec3,
    /// Accumulated Euler angles, milliradians per axis.
    pub rotation: Vec3,
    /// Per-axis scale, milli-scaled (`1000` is unit scale).
    pub scale: Vec3,
}

impl Transform {
    /// Scale components are non-zero, as the inverse transform requires.
    pub open spec fn wf(self) -> bool {
        self.scale.x != 0 && self.scale.y != 0 && self.scale.z != 0
    }

    /// A transform from its three parts.
    pub fn new(translation: Vec3, rotation: Vec3, scale: Vec3) -> (t: Transform)
        ensures
            t == (Transform { translation, rotation, scale }),
    {
        Transform { translation, rotation, scale }
    }

    /// The identity transform as a spec value.
    pub open spec fn spec_identity() -> Transform {
        Transform {
            translation: Vec3 { x: 0, y: 0, z: 0 },
            rotation: Vec3 { x: 0, y: 0, z: 0 },
            scale: Vec3 { x: MILLI, y: MILLI, z: MILLI },
        }
    }

    /// No translation or rotation, unit scale.
    pub fn identity() -> (t: Transform)
        ensures
            t == Transform::spec_identity(),
            t.translation == (Vec3 { x: 0, y: 0, z: 0 }),
            t.rotation == (Vec3 { x: 0, y: 0, z: 0 }),
            t.scale == (Vec3 { x: MILLI, y: MILLI, z: MILLI }),
            t.wf(),
    {
        Transform {
            translation: Vec3 { x: 0, y: 0, z: 0 },
            rotation: Vec3 { x: 0, y: 0, z: 0 },
            scale: Vec3 { x: MILLI, y: MILLI, z: MILLI },
        }
    }

    /// Only a translation.
    pub fn from_translation(translation: Vec3) -> (t: Transform)
        ensures
            t.translation == translation,
            t.rotation == (Vec3 { x: 0, y: 0, z: 0 }),
            t.scale == (Vec3 { x: MILLI, y: MILLI, z: MILLI }),
            t.wf(),
    {
        Transform { translation, ..Transform::identity() }
    }

    /// Only a rotation.
    pub fn from_rotation(rotation: Vec3) -> (t: Transform)
        ensures
            t.rotation == rotation,
            t.translation == (Vec3 { x: 0, y: 0, z: 0 }),
            t.scale == (Vec3 { x: MILLI, y: MILLI, z: MILLI }),
            t.wf(),
    {
        Transform { rotation, ..Transform::identity() }
    }

    /// Only a scale; the scale must have non-zero components.
    pub fn from_scale(scale: Vec3) -> (t: Transform)
        requires
            scale.x != 0 && scale.y != 0 && scale.z != 0,
        ensures
            t.scale == scale,
            t.translation == (Vec3 { x: 0, y: 0, z: 0 }),
            t.rotation == (Vec3 { x: 0, y: 0, z: 0 }),
            t.wf(),
    {
        Transform { scale, ..Transform::identity() }
    }

    /// Moves the transform by the given offset.
    pub fn translate(self, delta: Vec3) -> (t: Transform)
        requires
            self.translation.in_range(),
            delta.in_range(),
        ensures
            t.translation.x == self.translation.x + delta.x,
            t.translation.y == self.translation.y + delta.y,
            t.translation.z == self.translation.z + delta.z,
            t.rotation == self.rotation,
            t.scale == self.scale,
    {
        Transform { translation: self.translation.add(delta), ..self }
    }

    /// Rotates around the x axis by `angle` milliradians, saturating.
    pub fn rotate_x(self, angle: i64) -> (t: Transform)
        ensures
            t.rotation.x == spec_sat_add(self.rotation.x as int, angle as int),
            t.rotation.y == self.rotation.y,
            t.rotation.z == self.rotation.z,
            t.translation == self.translation,
            t.scale == self.scale,
    {
        Transform {
            rotation: Vec3 { x: sat_add(self.rotation.x, angle), ..self.rotation },
            ..self
        }
    }

    /// Rotates around the y axis by `angle` milliradians, saturating.
    pub fn rotate_y(self, angle: i64) -> (t: Transform)
        ensures
            t.rotation.y == spec_sat_add(self.rotation.y as int, angle as int),
            t.rotation.x == self.rotation.x,
            t.rotation.z == self.rotation.z,
            t.translation == self.translation,
            t.scale == self.scale,
    {
        Transform {
            rotation: Vec3 { y: sat_add(self.rotation.y, angle), ..self.rotation },
            ..self
        }
    }

    /// Rotates around the z axis by `angle` milliradians, saturating.
    pub fn rotate_z(self, angle: i64) -> (t: Transform)
        ensures
            t.rotation.z == spec_sat_add(self.rotation.z as int, angle as int),
            t.rotation.x == self.rotation.x,
            t.rotation.y == self.rotation.y,
            t.translation == self.translation,
            t.scale == self.scale,
    {
        Transform {
            rotation: Vec3 { z: sat_add(self.rotation.z, angle), ..self.rotation },
            ..self
        }
    }

    /// Scales each axis by a milli-scaled factor.
    pub fn scale(self, factor: Vec3) -> (t: Transform)
        requires
            self.scale.in_range(),
            factor.in_range(),
        ensures
            t.scale.x == spec_milli_mul(self.scale.x as int, factor.x as int),
            t.scale.y == spec_milli_mul(self.scale.y as int, factor.y as int),
            t.scale.z == spec_milli_mul(self.scale.z as int, factor.z as int),
            t.translation == self.translation,
            t.rotation == self.rotation,
    {
        Transform {
            scale: Vec3 {
                x: milli_mul(self.scale.x, factor.x),
                y: milli_mul(self.scale.y, factor.y),
                z: milli_mul(self.scale.z, factor.z),
            },
            ..self
        }
    }

    /// Scales every axis by the same milli-scaled factor.
    pub fn uniform_scale(self, factor: i64) -> (t: Transform)
        requires
            self.scale.in_range(),
            -COORD_LIMIT <= factor <= COORD_LIMIT,
        ensures
            t.scale.x == spec_milli_mul(self.scale.x as int, factor as int),
            t.scale.y == spec_milli_mul(self.scale.y as int, factor as int),
            t.scale.z == spec_milli_mul(self.scale.z as int, factor as int),
            t.translation == self.translation,
            t.rotation == self.rotation,
    {
        self.scale(Vec3 { x: factor, y: factor, z: factor })
    }
}

} // verus!
