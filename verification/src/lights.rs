//! Declarative light descriptions and their builders.
//!
//! A light here is plain data — kind, colour, intensity and (for
//! directional lights) a direction. The rendering backend realizes each
//! description into its own light handle at render time.

use vstd::prelude::*;

use crate::vec3::Vec3;

verus! {

/// An sRGB colour with alpha, one byte per channel.
#[derive(Clone, Copy, Debug, PartialEq, Eq, Structural)]
pub struct Color {
    /// Red channel.
    pub r: u8,
    /// Green channel.
    pub g: u8,
    /// Blue channel.
    pub b: u8,
    /// Alpha channel.
    pub a: u8,
}

impl Color {
    /// Opaque white.
    pub fn white() -> (c: Color)
        ensures
            c == (Color { r: 255, g: 255, b: 255, a: 255 }),
    {
        Color { r: 255, g: 255, b: 255, a: 255 }
    }

    /// Opaque black.
    pub fn black() -> (c: Color)
        ensures
            c == (Color { r: 0, g: 0, b: 0, a: 255 }),
    {
        Color { r: 0, g: 0, b: 0, a: 255 }
    }
}

/// A uniform light shining from every direction, optionally tinted by
/// an environment map.
#[derive(Clone, Copy, Debug, PartialEq, Eq, Structural)]
pub struct AmbientLight {
    /// Light intensity, milli-scaled (`1000` is unit intensity).
    pub intensity: u32,
    /// The base colour of the light.
    pub color: Color,
    /// Backend handle of an environment map the light shines from, if
    /// any; the backend resolves it at realization time.
    pub environment: Option<u64>,
}

impl AmbientLight {
    /// A builder starting from unit intensity and white colour.
    pub fn builder() -> (b: AmbientLightBuilder)
        ensures
            b.intensity == 1000,
            b.color == (Color { r: 255, g: 255, b: 255, a: 255 }),
            b.environment is None,
    {
        AmbientLightBuilder { intensity: 1000, color: Color::white(), environment: None }
    }
}

/// Builds an [`AmbientLight`], starting from unit intensity and white.
#[derive(Clone, Copy, Debug, PartialEq, Eq, Structural)]
pub struct AmbientLightBuilder {
    /// Light intensity, milli-scaled.
    pub intensity: u32,
    /// The base colour of the light.
    pub color: Color,
    /// Backend handle of an environment map, if chosen.
    pub environment: Option<u64>,
}

impl AmbientLightBuilder {
    /// Sets the intensity (milli-scaled).
    #[must_use]
    pub fn intensity(self, intensity: u32) -> (b: AmbientLightBuilder)
        ensures
            b == (AmbientLightBuilder { intensity, ..self }),
    {
        AmbientLightBuilder { intensity, ..self }
    }

    /// Sets the base colour.
    #[must_use]
    pub fn color(self, color: Color) -> (b: AmbientLightBuilder)
        ensures
            b == (AmbientLightBuilder { color, ..self }),
    {
        AmbientLightBuilder { color, ..self }
    }

    /// Lets the light shine from an environment map, by backend handle.
    #[must_use]
    pub fn environment(self, texture: u64) -> (b: AmbientLightBuilder)
        ensures
            b == (AmbientLightBuilder { environment: Some(texture), ..self }),
    {
        AmbientLightBuilder { environment: Some(texture), ..self }
    }

    /// The described ambient light.
    pub fn build(self) -> (l: AmbientLight)
        ensures
            l.intensity == self.intensity,
            l.color == self.color,
            l.environment == self.environment,
    {
        AmbientLight {
            intensity: self.intensity,
            color: self.color,
            environment: self.environment,
        }
    }
}

/// A light shining uniformly from one direction.
#[derive(Clone, Copy, Debug, PartialEq, Eq, Structural)]
pub struct DirectionalLight {
    /// Light intensity, milli-scaled; more than `1000` simulates
    /// high-intensity sources like the sun.
    pub intensity: u32,
    /// The base colour of the light.
    pub color: Color,
    /// The direction the light shines, milli units.
    pub direction: Vec3,
}

impl DirectionalLight {
    /// A builder starting from unit intensity, white colour and a
    /// straight-down direction.
    pub fn builder() -> (b: DirectionalLightBuilder)
        ensures
            b.intensity == 1000,
            b.color == (Color { r: 255, g: 255, b: 255, a: 255 }),
            b.direction.x == 0 && b.direction.y == -1000 && b.direction.z == 0,
    {
        DirectionalLightBuilder {
            intensity: 1000,
            color: Color::white(),
            direction: Vec3 { x: 0, y: -1000, z: 0 },
        }
    }
}

/// Builds a [`DirectionalLight`], starting from unit intensity, white
/// colour and a straight-down direction.
#[derive(Clone, Copy, Debug, PartialEq, Eq, Structural)]
pub struct DirectionalLightBuilder {
    /// Light intensity, milli-scaled.
    pub intensity: u32,
    /// The base colour of the light.
    pub color: Color,
    /// The direction the light shines, milli units.
    pub direction: Vec3,
}

impl DirectionalLightBuilder {
    /// Sets the intensity (milli-scaled).
    #[must_use]
    pub fn intensity(self, intensity: u32) -> (b: DirectionalLightBuilder)
        ensures
            b == (DirectionalLightBuilder { intensity, ..self }),
    {
        DirectionalLightBuilder { intensity, ..self }
    }

    /// Sets the base colour.
    #[must_use]
    pub fn color(self, color: Color) -> (b: DirectionalLightBuilder)
        ensures
            b == (DirectionalLightBuilder { color, ..self }),
    {
        DirectionalLightBuilder { color, ..self }
    }

    /// Sets the direction the light shines.
    #[must_use]
    pub fn direction(self, direction: Vec3) -> (b: DirectionalLightBuilder)
        ensures
            b == (DirectionalLightBuilder { direction, ..self }),
    {
        DirectionalLightBuilder { direction, ..self }
    }

    /// The described directional light.
    pub fn build(self) -> (l: DirectionalLight)
        ensures
            l.intensity == self.intensity,
            l.color == self.color,
            l.direction == self.direction,
    {
        DirectionalLight {
            intensity: self.intensity,
            color: self.color,
            direction: self.direction,
        }
    }
}

/// Any light a scene may hold, ready for the backend to realize.
#[derive(Clone, Copy, Debug, PartialEq, Eq, Structural)]
pub enum SceneLight {
    /// A uniform light from every direction.
    Ambient(AmbientLight),
    /// A light from one direction.
    Directional(DirectionalLight),
}

} // verus!
