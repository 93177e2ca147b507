//! Builder-style construction of physically-based material descriptions.
//!
//! The builder collects colour, texture and surface parameters as plain
//! values — textures by backend-assigned handle, scalars milli-scaled —
//! and `build` produces the final description for the rendering backend
//! to realize.

use vstd::prelude::*;

use crate::lights::Color;

verus! {

/// Whether a material is rendered with or without alpha blending.
#[derive(Clone, Copy, Debug, PartialEq, Eq, Structural)]
pub enum MaterialType {
    /// Rendered with alpha blending.
    Transparent,
    /// Rendered without alpha blending.
    Opaque,
}

/// The lighting model a material is shaded with.
#[derive(Clone, Copy, Debug, PartialEq, Eq, Structural)]
pub enum LightingModel {
    /// Phong shading.
    Phong,
    /// Blinn-Phong shading.
    Blinn,
    /// Cook-Torrance shading.
    Cook,
}

/// Entry point for building material descriptions.
#[derive(Clone, Copy, Debug, PartialEq, Eq, Structural)]
pub struct Material;

impl Material {
    /// A builder starting from a plain white opaque surface.
    pub fn builder() -> (b: MaterialBuilder)
        ensures
            b.material_type is None,
            b.name@ == "default"@,
            b.albedo == (Color { r: 255, g: 255, b: 255, a: 255 }),
            b.albedo_texture is None,
            b.occlusion_metallic_roughness_texture is None,
            b.metallic_roughness_texture is None,
            b.occlusion_texture is None,
            b.metallic == 0,
            b.roughness == 1000,
            b.occlusion_strength == 1000,
            b.normal_texture is None,
            b.normal_scale == 1000,
            b.emissive == (Color { r: 0, g: 0, b: 0, a: 255 }),
            b.emissive_texture is None,
            b.index_of_refraction == 1500,
            b.transmission == 0,
            b.transmission_texture is None,
            b.alpha_cutout is None,
            b.lighting_model == LightingModel::Blinn,
    {
        MaterialBuilder {
            material_type: None,
            name: "default".to_string(),
            albedo: Color { r: 255, g: 255, b: 255, a: 255 },
            albedo_texture: None,
            occlusion_metallic_roughness_texture: None,
            metallic_roughness_texture: None,
            occlusion_texture: None,
            metallic: 0,
            roughness: 1000,
            occlusion_strength: 1000,
            normal_texture: None,
            normal_scale: 1000,
            emissive: Color { r: 0, g: 0, b: 0, a: 255 },
            emissive_texture: None,
            index_of_refraction: 1500,
            transmission: 0,
            transmission_texture: None,
            alpha_cutout: None,
            lighting_model: LightingModel::Blinn,
        }
    }
}

/// Collects material parameters before producing the description.
/// Scalars are milli-scaled; textures are backend handles.
#[derive(Debug)]
pub struct MaterialBuilder {
    /// Whether the material renders transparent or opaque; unset leaves
    /// the backend's default.
    pub material_type: Option<MaterialType>,
    /// Display name of the material.
    pub name: String,
    /// Albedo base colour, also called diffuse colour.
    pub albedo: Color,
    /// Texture handle with albedo base colours.
    pub albedo_texture: Option<u64>,
    /// How metallic the surface is, milli-scaled in `[0, 1000]`.
    pub metallic: u32,
    /// How rough the surface is, milli-scaled in `[0, 1000]`.
    pub roughness: u32,
    /// Texture handle carrying occlusion, metallic and roughness.
    pub occlusion_metallic_roughness_texture: Option<u64>,
    /// Texture handle carrying metallic and roughness.
    pub metallic_roughness_texture: Option<u64>,
    /// How strongly the occlusion texture applies, milli-scaled.
    pub occlusion_strength: u32,
    /// Occlusion texture handle.
    pub occlusion_texture: Option<u64>,
    /// Multiplier on the normal texture, milli-scaled.
    pub normal_scale: u32,
    /// Tangent-space normal texture handle.
    pub normal_texture: Option<u64>,
    /// Colour of light shining from the surface.
    pub emissive: Color,
    /// Texture handle with emissive colours.
    pub emissive_texture: Option<u64>,
    /// Index of refraction, milli-scaled.
    pub index_of_refraction: u32,
    /// Light transmission through the surface, milli-scaled.
    pub transmission: u32,
    /// Transmission texture handle.
    pub transmission_texture: Option<u64>,
    /// Alpha values below this cutout (milli-scaled) are discarded.
    pub alpha_cutout: Option<u32>,
    /// The lighting model to shade with.
    pub lighting_model: LightingModel,
}

impl MaterialBuilder {
    /// Renders the material without alpha blending.
    #[must_use]
    pub fn opaque(self) -> (b: MaterialBuilder)
        ensures
            b == (MaterialBuilder { material_type: Some(MaterialType::Opaque), ..self }),
    {
        MaterialBuilder { material_type: Some(MaterialType::Opaque), ..self }
    }

    /// Renders the material with alpha blending.
    #[must_use]
    pub fn transparent(self) -> (b: MaterialBuilder)
        ensures
            b == (MaterialBuilder { material_type: Some(MaterialType::Transparent), ..self }),
    {
        MaterialBuilder { material_type: Some(MaterialType::Transparent), ..self }
    }

    /// Names the material.
    #[must_use]
    pub fn name(self, name: String) -> (b: MaterialBuilder)
        ensures
            b == (MaterialBuilder { name, ..self }),
    {
        MaterialBuilder { name, ..self }
    }

    /// Sets the albedo base colour.
    #[must_use]
    pub fn albedo(self, albedo: Color) -> (b: MaterialBuilder)
        ensures
            b == (MaterialBuilder { albedo, ..self }),
    {
        MaterialBuilder { albedo, ..self }
    }

    /// Sets the albedo texture handle.
    #[must_use]
    pub fn albedo_texture(self, texture: u64) -> (b: MaterialBuilder)
        ensures
            b == (MaterialBuilder { albedo_texture: Some(texture), ..self }),
    {
        MaterialBuilder { albedo_texture: Some(texture), ..self }
    }

    /// Sets how metallic the surface is (milli-scaled).
    #[must_use]
    pub fn metallic(self, metallic: u32) -> (b: MaterialBuilder)
        ensures
            b == (MaterialBuilder { metallic, ..self }),
    {
        MaterialBuilder { metallic, ..self }
    }

    /// Sets how rough the surface is (milli-scaled).
    #[must_use]
    pub fn roughness(self, roughness: u32) -> (b: MaterialBuilder)
        ensures
            b == (MaterialBuilder { roughness, ..self }),
    {
        MaterialBuilder { roughness, ..self }
    }

    /// Sets the combined occlusion-metallic-roughness texture handle.
    #[must_use]
    pub fn occlusion_metallic_roughness_texture(self, texture: u64) -> (b: MaterialBuilder)
        ensures
            b == (MaterialBuilder {
                occlusion_metallic_roughness_texture: Some(texture),
                ..self
            }),
    {
        MaterialBuilder { occlusion_metallic_roughness_texture: Some(texture), ..self }
    }

    /// Sets the metallic-roughness texture handle.
    #[must_use]
    pub fn metallic_roughness_texture(self, texture: u64) -> (b: MaterialBuilder)
        ensures
            b == (MaterialBuilder { metallic_roughness_texture: Some(texture), ..self }),
    {
        MaterialBuilder { metallic_roughness_texture: Some(texture), ..self }
    }

    /// Sets how strongly the occlusion texture applies (milli-scaled).
    #[must_use]
    pub fn occlusion_strength(self, strength: u32) -> (b: MaterialBuilder)
        ensures
            b == (MaterialBuilder { occlusion_strength: strength, ..self }),
    {
        MaterialBuilder { occlusion_strength: strength, ..self }
    }

    /// Sets the occlusion texture handle.
    #[must_use]
    pub fn occlusion_texture(self, texture: u64) -> (b: MaterialBuilder)
        ensures
            b == (MaterialBuilder { occlusion_texture: Some(texture), ..self }),
    {
        MaterialBuilder { occlusion_texture: Some(texture), ..self }
    }

    /// Sets the multiplier on the normal texture (milli-scaled).
    #[must_use]
    pub fn normal_scale(self, scale: u32) -> (b: MaterialBuilder)
        ensures
            b == (MaterialBuilder { normal_scale: scale, ..self }),
    {
        MaterialBuilder { normal_scale: scale, ..self }
    }

    /// Sets the tangent-space normal texture handle.
    #[must_use]
    pub fn normal_texture(self, texture: u64) -> (b: MaterialBuilder)
        ensures
            b == (MaterialBuilder { normal_texture: Some(texture), ..self }),
    {
        MaterialBuilder { normal_texture: Some(texture), ..self }
    }

    /// Sets the emissive colour.
    #[must_use]
    pub fn emissive(self, emissive: Color) -> (b: MaterialBuilder)
        ensures
            b == (MaterialBuilder { emissive, ..self }),
    {
        MaterialBuilder { emissive, ..self }
    }

    /// Sets the emissive texture handle.
    #[must_use]
    pub fn emissive_texture(self, texture: u64) -> (b: MaterialBuilder)
        ensures
            b == (MaterialBuilder { emissive_texture: Some(texture), ..self }),
    {
        MaterialBuilder { emissive_texture: Some(texture), ..self }
    }

    /// Discards alpha values below the cutout (milli-scaled).
    #[must_use]
    pub fn alpha_cutout(self, cutout: u32) -> (b: MaterialBuilder)
        ensures
            b == (MaterialBuilder { alpha_cutout: Some(cutout), ..self }),
    {
        MaterialBuilder { alpha_cutout: Some(cutout), ..self }
    }

    /// Sets the lighting model.
    #[must_use]
    pub fn lighting_model(self, model: LightingModel) -> (b: MaterialBuilder)
        ensures
            b == (MaterialBuilder { lighting_model: model, ..self }),
    {
        MaterialBuilder { lighting_model: model, ..self }
    }

    /// Sets the index of refraction (milli-scaled).
    #[must_use]
    pub fn index_of_refraction(self, ior: u32) -> (b: MaterialBuilder)
        ensures
            b == (MaterialBuilder { index_of_refraction: ior, ..self }),
    {
        MaterialBuilder { index_of_refraction: ior, ..self }
    }

    /// Sets the light transmission (milli-scaled).
    #[must_use]
    pub fn transmission(self, transmission: u32) -> (b: MaterialBuilder)
        ensures
            b == (MaterialBuilder { transmission, ..self }),
    {
        MaterialBuilder { transmission, ..self }
    }

    /// Sets the transmission texture handle.
    #[must_use]
    pub fn transmission_texture(self, texture: u64) -> (b: MaterialBuilder)
        ensures
            b == (MaterialBuilder { transmission_texture: Some(texture), ..self }),
    {
        MaterialBuilder { transmission_texture: Some(texture), ..self }
    }

    /// The finished material description, exactly as collected.
    pub fn build(self) -> (m: MaterialDesc)
        ensures
            m.material_type == self.material_type,
            m.name@ == self.name@,
            m.albedo == self.albedo,
            m.albedo_texture == self.albedo_texture,
            m.metallic == self.metallic,
            m.roughness == self.roughness,
            m.occlusion_metallic_roughness_texture == self.occlusion_metallic_roughness_texture,
            m.metallic_roughness_texture == self.metallic_roughness_texture,
            m.occlusion_strength == self.occlusion_strength,
            m.occlusion_texture == self.occlusion_texture,
            m.normal_scale == self.normal_scale,
            m.normal_texture == self.normal_texture,
            m.emissive == self.emissive,
            m.emissive_texture == self.emissive_texture,
            m.index_of_refraction == self.index_of_refraction,
            m.transmission == self.transmission,
            m.transmission_texture == self.transmission_texture,
            m.alpha_cutout == self.alpha_cutout,
            m.lighting_model == self.lighting_model,
    {
        MaterialDesc {
            material_type: self.material_type,
            name: self.name,
            albedo: self.albedo,
            albedo_texture: self.albedo_texture,
            metallic: self.metallic,
            roughness: self.roughness,
            occlusion_metallic_roughness_texture: self.occlusion_metallic_roughness_texture,
            metallic_roughness_texture: self.metallic_roughness_texture,
            occlusion_strength: self.occlusion_strength,
            occlusion_texture: self.occlusion_texture,
            normal_scale: self.normal_scale,
            normal_texture: self.normal_texture,
            emissive: self.emissive,
            emissive_texture: self.emissive_texture,
            index_of_refraction: self.index_of_refraction,
            transmission: self.transmission,
            transmission_texture: self.transmission_texture,
            alpha_cutout: self.alpha_cutout,
            lighting_model: self.lighting_model,
        }
    }
}

/// A finished material description, ready for the rendering backend to
/// realize into its own material object.
#[derive(Debug)]
pub struct MaterialDesc {
    /// Whether the material renders transparent or opaque; unset leaves
    /// the backend's default.
    pub material_type: Option<MaterialType>,
    /// Display name of the material.
    pub name: String,
    /// Albedo base colour.
    pub albedo: Color,
    /// Texture handle with albedo base colours.
    pub albedo_texture: Option<u64>,
    /// How metallic the surface is, milli-scaled.
    pub metallic: u32,
    /// How rough the surface is, milli-scaled.
    pub roughness: u32,
    /// Texture handle carrying occlusion, metallic and roughness.
    pub occlusion_metallic_roughness_texture: Option<u64>,
    /// Texture handle carrying metallic and roughness.
    pub metallic_roughness_texture: Option<u64>,
    /// How strongly the occlusion texture applies, milli-scaled.
    pub occlusion_strength: u32,
    /// Occlusion texture handle.
    pub occlusion_texture: Option<u64>,
    /// Multiplier on the normal texture, milli-scaled.
    pub normal_scale: u32,
    /// Tangent-space normal texture handle.
    pub normal_texture: Option<u64>,
    /// Colour of light shining from the surface.
    pub emissive: Color,
    /// Texture handle with emissive colours.
    pub emissive_texture: Option<u64>,
    /// Index of refraction, milli-scaled.
    pub index_of_refraction: u32,
    /// Light transmission through the surface, milli-scaled.
    pub transmission: u32,
    /// Transmission texture handle.
    pub transmission_texture: Option<u64>,
    /// Alpha values below this cutout are discarded, milli-scaled.
    pub alpha_cutout: Option<u32>,
    /// The lighting model to shade with.
    pub lighting_model: LightingModel,
}

} // verus!
