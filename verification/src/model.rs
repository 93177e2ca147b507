//! Builder-style construction of model descriptions: a mesh, a material
//! and a placement, ready for the rendering backend to realize.

use vstd::prelude::*;

use crate::material::{Material, MaterialDesc};
use crate::transform::Transform;

verus! {

/// Entry point for building model descriptions.
#[derive(Clone, Copy, Debug, PartialEq, Eq, Structural)]
pub struct Model;

impl Model {
    /// A builder with nothing chosen yet and an identity placement.
    pub fn builder() -> (b: ModelBuilder)
        ensures
            b.mesh is None,
            b.material is None,
            b.transform == Transform::spec_identity(),
    {
        ModelBuilder { mesh: None, material: None, transform: Transform::identity() }
    }
}

/// Collects a model's parts. A mesh and a material are required before
/// building.
#[derive(Debug)]
pub struct ModelBuilder {
    /// Backend handle of the mesh to draw.
    pub mesh: Option<u64>,
    /// The material to shade the mesh with.
    pub material: Option<MaterialDesc>,
    /// Where the model stands.
    pub transform: Transform,
}

impl ModelBuilder {
    /// Chooses the mesh, by backend handle.
    #[must_use]
    pub fn mesh(self, mesh: u64) -> (b: ModelBuilder)
        ensures
            b == (ModelBuilder { mesh: Some(mesh), ..self }),
    {
        ModelBuilder { mesh: Some(mesh), ..self }
    }

    /// Chooses the material.
    #[must_use]
    pub fn material(self, material: MaterialDesc) -> (b: ModelBuilder)
        ensures
            b == (ModelBuilder { material: Some(material), ..self }),
    {
        ModelBuilder { material: Some(material), ..self }
    }

    /// Places the model.
    #[must_use]
    pub fn transform(self, transform: Transform) -> (b: ModelBuilder)
        ensures
            b == (ModelBuilder { transform, ..self }),
    {
        ModelBuilder { transform, ..self }
    }

    /// The finished model description. A mesh and a material must have
    /// been chosen; building without them is a programming error.
    pub fn build(self) -> (m: ModelDesc)
        requires
            self.mesh is Some,
            self.material is Some,
        ensures
            m.mesh == self.mesh.unwrap(),
            m.material == self.material.unwrap(),
            m.transform == self.transform,
    {
        let mesh = self.mesh.unwrap();
        let material = match self.material {
            Some(m) => m,
            None => {
                proof {
                    assert(false);
                }
                Material::builder().build()
            },
        };
        ModelDesc { mesh, material, transform: self.transform }
    }
}

/// A finished model description for the backend to realize.
#[derive(Debug)]
pub struct ModelDesc {
    /// Backend handle of the mesh to draw.
    pub mesh: u64,
    /// The material to shade the mesh with.
    pub material: MaterialDesc,
    /// Where the model stands.
    pub transform: Transform,
}

} // verus!
