//! Builder-style camera construction and common presets.
//!
//! The builder collects projection, placement, optics and control
//! settings as plain milli-scaled values; `build` turns them into a
//! [`Camera`] whose stored distance is the integer distance between
//! position and target.

use vstd::prelude::*;

use crate::camera::{Camera, CameraType, ControlType};
use crate::frame::Viewport;
use crate::vec3::Vec3;

verus! {

/// Collects camera settings before construction.
#[derive(Clone, Copy, Debug, PartialEq, Eq, Structural)]
pub struct CameraBuilder {
    /// Which projection the camera will use.
    pub camera_type: CameraType,
    /// Where the camera stands, milli units.
    pub position: Vec3,
    /// The point the camera looks at, milli units.
    pub target: Vec3,
    /// The up direction, milli units.
    pub up: Vec3,
    /// Vertical field of view, millidegrees.
    pub fov_millideg: u32,
    /// Near clipping distance, milli units.
    pub near: u32,
    /// Far clipping distance, milli units.
    pub far: u32,
    /// How the camera will react to input.
    pub control: ControlType,
    /// Whether the viewport follows the render surface.
    pub auto_viewport: bool,
}

impl Default for CameraBuilder {
    /// A perspective camera at `(5, 2, 5)` looking at the origin, up
    /// `y`, a 45-degree field of view, clipping from `0.1` to `1000`,
    /// no controls, following the surface viewport.
    fn default() -> (b: CameraBuilder)
        ensures
            b == CameraBuilder::spec_default(),
    {
        CameraBuilder {
            camera_type: CameraType::Perspective,
            position: Vec3 { x: 5000, y: 2000, z: 5000 },
            target: Vec3 { x: 0, y: 0, z: 0 },
            up: Vec3 { x: 0, y: 1000, z: 0 },
            fov_millideg: 45_000,
            near: 100,
            far: 1_000_000,
            control: ControlType::Inert,
            auto_viewport: true,
        }
    }
}

impl CameraBuilder {
    /// The builder's starting state.
    pub open spec fn spec_default() -> CameraBuilder {
        CameraBuilder {
            camera_type: CameraType::Perspective,
            position: Vec3 { x: 5000, y: 2000, z: 5000 },
            target: Vec3 { x: 0, y: 0, z: 0 },
            up: Vec3 { x: 0, y: 1000, z: 0 },
            fov_millideg: 45_000,
            near: 100,
            far: 1_000_000,
            control: ControlType::Inert,
            auto_viewport: true,
        }
    }

    /// Same as the default state.
    pub fn new() -> (b: CameraBuilder)
        ensures
            b == CameraBuilder::spec_default(),
    {
        Default::default()
    }

    /// Uses a perspective projection.
    #[must_use]
    pub fn perspective(self) -> (b: CameraBuilder)
        ensures
            b == (CameraBuilder { camera_type: CameraType::Perspective, ..self }),
    {
        CameraBuilder { camera_type: CameraType::Perspective, ..self }
    }

    /// Uses an orthographic projection.
    #[must_use]
    pub fn orthographic(self) -> (b: CameraBuilder)
        ensures
            b == (CameraBuilder { camera_type: CameraType::Orthographic, ..self }),
    {
        CameraBuilder { camera_type: CameraType::Orthographic, ..self }
    }

    /// Places the camera at the given milli coordinates.
    #[must_use]
    pub fn position(self, x: i64, y: i64, z: i64) -> (b: CameraBuilder)
        ensures
            b == (CameraBuilder { position: Vec3 { x, y, z }, ..self }),
    {
        CameraBuilder { position: Vec3 { x, y, z }, ..self }
    }

    /// Places the camera at the given point.
    #[must_use]
    pub fn position_vec(self, position: Vec3) -> (b: CameraBuilder)
        ensures
            b == (CameraBuilder { position, ..self }),
    {
        CameraBuilder { position, ..self }
    }

    /// Points the camera at the given milli coordinates.
    #[must_use]
    pub fn look_at(self, x: i64, y: i64, z: i64) -> (b: CameraBuilder)
        ensures
            b == (CameraBuilder { target: Vec3 { x, y, z }, ..self }),
    {
        CameraBuilder { target: Vec3 { x, y, z }, ..self }
    }

    /// Points the camera at the given point.
    #[must_use]
    pub fn target(self, target: Vec3) -> (b: CameraBuilder)
        ensures
            b == (CameraBuilder { target, ..self }),
    {
        CameraBuilder { target, ..self }
    }

    /// Points the camera at the origin.
    #[must_use]
    pub fn target_origin(self) -> (b: CameraBuilder)
        ensures
            b == (CameraBuilder { target: Vec3 { x: 0, y: 0, z: 0 }, ..self }),
    {
        CameraBuilder { target: Vec3 { x: 0, y: 0, z: 0 }, ..self }
    }

    /// Sets the up direction from milli coordinates.
    #[must_use]
    pub fn up(self, x: i64, y: i64, z: i64) -> (b: CameraBuilder)
        ensures
            b == (CameraBuilder { up: Vec3 { x, y, z }, ..self }),
    {
        CameraBuilder { up: Vec3 { x, y, z }, ..self }
    }

    /// Sets the up direction.
    #[must_use]
    pub fn up_vec(self, up: Vec3) -> (b: CameraBuilder)
        ensures
            b == (CameraBuilder { up, ..self }),
    {
        CameraBuilder { up, ..self }
    }

    /// Sets the vertical field of view, in millidegrees.
    #[must_use]
    pub fn fov(self, millidegrees: u32) -> (b: CameraBuilder)
        ensures
            b == (CameraBuilder { fov_millideg: millidegrees, ..self }),
    {
        CameraBuilder { fov_millideg: millidegrees, ..self }
    }

    /// Sets both clipping distances, milli units.
    #[must_use]
    pub fn near_far(self, near: u32, far: u32) -> (b: CameraBuilder)
        ensures
            b == (CameraBuilder { near, far, ..self }),
    {
        CameraBuilder { near, far, ..self }
    }

    /// Sets the near clipping distance, milli units.
    #[must_use]
    pub fn near(self, near: u32) -> (b: CameraBuilder)
        ensures
            b == (CameraBuilder { near, ..self }),
    {
        CameraBuilder { near, ..self }
    }

    /// Sets the far clipping distance, milli units.
    #[must_use]
    pub fn far(self, far: u32) -> (b: CameraBuilder)
        ensures
            b == (CameraBuilder { far, ..self }),
    {
        CameraBuilder { far, ..self }
    }

    /// Enables orbit controls with the default distance limits of one
    /// to one hundred units.
    #[must_use]
    pub fn with_orbit_controls(self) -> (b: CameraBuilder)
        ensures
            b == (CameraBuilder {
                control: ControlType::Orbit { min_distance: 1000, max_distance: 100_000 },
                ..self
            }),
    {
        CameraBuilder {
            control: ControlType::Orbit { min_distance: 1000, max_distance: 100_000 },
            ..self
        }
    }

    /// Enables orbit controls with the given distance limits (milli
    /// units).
    #[must_use]
    pub fn with_orbit_controls_limits(self, min_distance: u32, max_distance: u32) -> (b:
        CameraBuilder)
        ensures
            b == (CameraBuilder {
                control: ControlType::Orbit { min_distance, max_distance },
                ..self
            }),
    {
        CameraBuilder { control: ControlType::Orbit { min_distance, max_distance }, ..self }
    }

    /// Disables input handling.
    #[must_use]
    pub fn no_controls(self) -> (b: CameraBuilder)
        ensures
            b == (CameraBuilder { control: ControlType::Inert, ..self }),
    {
        CameraBuilder { control: ControlType::Inert, ..self }
    }

    /// Sets whether the viewport follows the render surface.
    #[must_use]
    pub fn auto_viewport(self, auto: bool) -> (b: CameraBuilder)
        ensures
            b == (CameraBuilder { auto_viewport: auto, ..self }),
    {
        CameraBuilder { auto_viewport: auto, ..self }
    }

    /// The described camera, viewing through `viewport`: it stands at
    /// the builder's position looking at the builder's target with the
    /// builder's up direction, under either projection. The stored
    /// distance is the integer length of the position-target offset,
    /// and a perspective camera also carries the builder's optics.
    pub fn build(self, viewport: Viewport) -> (c: Camera)
        requires
            self.position.in_range(),
            self.target.in_range(),
            viewport.width <= 2_000_000,
            viewport.height <= 2_000_000,
        ensures
            c.control == self.control,
            c.target == self.target,
            c.auto_viewport == self.auto_viewport,
            c.viewport == viewport,
            c.camera_type == self.camera_type,
            c.yaw == 0,
            c.pitch == 0,
            c.up == self.up,
            c.offset.x == self.position.x - self.target.x,
            c.offset.y == self.position.y - self.target.y,
            c.offset.z == self.position.z - self.target.z,
            (c.distance as int) * (c.distance as int) <= (self.position.x - self.target.x) * (
            self.position.x - self.target.x) + (self.position.y - self.target.y) * (
            self.position.y - self.target.y) + (self.position.z - self.target.z) * (
            self.position.z - self.target.z) < (c.distance as int + 1) * (c.distance as int
                + 1),
            self.camera_type == CameraType::Perspective ==> c.fov_millideg == self.fov_millideg
                && c.z_near == self.near && c.z_far == self.far,
    {
        let mut camera = match self.camera_type {
            CameraType::Perspective => Camera::new_3d(
                viewport,
                self.position,
                self.target,
                self.up,
                self.fov_millideg,
                self.near,
                self.far,
            ),
            CameraType::Orthographic => Camera::new_2d(viewport),
        };
        let d = self.position.distance(self.target);
        proof {
            assert((d as int) * (d as int) < (u32::MAX as int) * (u32::MAX as int) ==> d
                < u32::MAX) by (nonlinear_arith);
            assert((self.position.x - self.target.x) * (self.position.x - self.target.x) + (
            self.position.y - self.target.y) * (self.position.y - self.target.y) + (
            self.position.z - self.target.z) * (self.position.z - self.target.z) < (
            u32::MAX as int) * (u32::MAX as int)) by (nonlinear_arith)
                requires
                    self.position.in_range(),
                    self.target.in_range(),
            ;
        }
        camera.control = self.control;
        camera.target = self.target;
        camera.auto_viewport = self.auto_viewport;
        camera.up = self.up;
        camera.offset = self.position.sub(self.target);
        camera.distance = d as u32;
        camera
    }
}

/// Ready-made camera builders for common viewpoints.
#[derive(Clone, Copy, Debug, PartialEq, Eq, Structural)]
pub struct CameraPresets;

impl CameraPresets {
    /// A perspective orbit camera at `(8, 4, 8)` looking at the origin.
    pub fn orbit_around_origin() -> (b: CameraBuilder)
        ensures
            b == (CameraBuilder {
                position: Vec3 { x: 8000, y: 4000, z: 8000 },
                control: ControlType::Orbit { min_distance: 1000, max_distance: 100_000 },
                ..CameraBuilder::spec_default()
            }),
    {
        CameraBuilder::new().perspective().position(8000, 4000, 8000).target_origin()
            .with_orbit_controls()
    }

    /// An orbit camera roughly `distance` milli units from the origin,
    /// placed diagonally (the horizontal legs take the distance over
    /// the square root of two).
    pub fn orbit_around_origin_at_distance(distance: u32) -> (b: CameraBuilder)
        requires
            distance <= 1_000_000_000,
        ensures
            b.control == (ControlType::Orbit { min_distance: 1000, max_distance: 100_000 }),
            b.camera_type == CameraType::Perspective,
            b.target == (Vec3 { x: 0, y: 0, z: 0 }),
            b.position.x == (distance as int) * 7071 / 10000,
            b.position.y == b.position.x / 2,
            b.position.z == b.position.x,
            b.auto_viewport,
    {
        let pos: i64 = ((distance as i64) * 7071) / 10000;
        CameraBuilder::new().perspective().position(pos, pos / 2, pos).target_origin()
            .with_orbit_controls()
    }

    /// An orthographic camera looking straight down from ten units up.
    pub fn top_down() -> (b: CameraBuilder)
        ensures
            b == (CameraBuilder {
                camera_type: CameraType::Orthographic,
                position: Vec3 { x: 0, y: 10_000, z: 0 },
                up: Vec3 { x: 0, y: 0, z: -1000i64 },
                ..CameraBuilder::spec_default()
            }),
    {
        CameraBuilder::new().orthographic().position(0, 10_000, 0).target_origin().up(
            0,
            0,
            -1000,
        )
    }

    /// An orthographic camera looking straight down from the given
    /// height (milli units).
    pub fn top_down_at_height(height: i64) -> (b: CameraBuilder)
        ensures
            b == (CameraBuilder {
                camera_type: CameraType::Orthographic,
                position: Vec3 { x: 0, y: height, z: 0 },
                up: Vec3 { x: 0, y: 0, z: -1000i64 },
                ..CameraBuilder::spec_default()
            }),
    {
        CameraBuilder::new().orthographic().position(0, height, 0).target_origin().up(0, 0, -1000)
    }

    /// A perspective orbit camera on the x axis, ten units out.
    pub fn side_view() -> (b: CameraBuilder)
        ensures
            b == (CameraBuilder {
                position: Vec3 { x: 10_000, y: 0, z: 0 },
                control: ControlType::Orbit { min_distance: 1000, max_distance: 100_000 },
                ..CameraBuilder::spec_default()
            }),
    {
        CameraBuilder::new().perspective().position(10_000, 0, 0).target_origin()
            .with_orbit_controls()
    }

    /// A perspective orbit camera on the z axis, ten units out.
    pub fn front_view() -> (b: CameraBuilder)
        ensures
            b == (CameraBuilder {
                position: Vec3 { x: 0, y: 0, z: 10_000 },
                control: ControlType::Orbit { min_distance: 1000, max_distance: 100_000 },
                ..CameraBuilder::spec_default()
            }),
    {
        CameraBuilder::new().perspective().position(0, 0, 10_000).target_origin()
            .with_orbit_controls()
    }

    /// An orthographic orbit camera on the diagonal at `(5, 5, 5)`.
    pub fn isometric() -> (b: CameraBuilder)
        ensures
            b == (CameraBuilder {
                camera_type: CameraType::Orthographic,
                position: Vec3 { x: 5000, y: 5000, z: 5000 },
                control: ControlType::Orbit { min_distance: 1000, max_distance: 100_000 },
                ..CameraBuilder::spec_default()
            }),
    {
        CameraBuilder::new().orthographic().position(5000, 5000, 5000).target_origin()
            .with_orbit_controls()
    }
}

} // verus!
