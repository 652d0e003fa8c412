//! The passive data the renderer reads: geometry handles, texture
//! descriptors, entities, and the external collaborators' plain values.

use vstd::prelude::*;

verus! {

use crate::maths::Rot;
use crate::maths::Vec3;
use crate::maths::rot_wf;
use crate::maths::scale_factor_wf;
use crate::maths::vec3_wf;

/// A geometry handle: the vertex-array object holding the mesh, and how
/// many indices an indexed draw of it takes.
#[derive(Clone, Copy, PartialEq, Eq, Structural, Debug)]
pub struct RawModel {
    pub vao_id: u32,
    pub vertex_count: i32,
}

impl RawModel {
    /// The vertex-array object identifier.
    pub fn get_vao_id(&self) -> (r: u32)
        ensures
            r == self.vao_id,
    {
        self.vao_id
    }

    /// The number of indices an indexed draw of this model takes.
    pub fn get_vertex_count(&self) -> (r: i32)
        ensures
            r == self.vertex_count,
    {
        self.vertex_count
    }
}

/// A texture descriptor: the native texture handle and the material's
/// specular parameters, both fixed-point raw values.
#[derive(Clone, Copy, PartialEq, Eq, Structural, Debug)]
pub struct ModelTexture {
    pub id: u32,
    pub shine_damper: i64,
    pub reflectivity: i64,
}

impl ModelTexture {
    /// The native texture identifier.
    pub fn get_id(&self) -> (r: u32)
        ensures
            r == self.id,
    {
        self.id
    }

    /// How sharply the specular highlight falls off.
    pub fn get_shine_damper(&self) -> (r: i64)
        ensures
            r == self.shine_damper,
    {
        self.shine_damper
    }

    /// How strongly the surface reflects light.
    pub fn get_reflectivity(&self) -> (r: i64)
        ensures
            r == self.reflectivity,
    {
        self.reflectivity
    }
}

/// A model paired with its texture; immutable once constructed and shared
/// by every instance drawn with it.
#[derive(Clone, Copy, PartialEq, Eq, Structural, Debug)]
pub struct TexturedModel {
    pub raw_model: RawModel,
    pub texture: ModelTexture,
}

impl TexturedModel {
    /// The geometry handle.
    pub fn get_raw_model(&self) -> (r: &RawModel)
        ensures
            r == self.raw_model,
    {
        &self.raw_model
    }

    /// The texture descriptor.
    pub fn get_texture(&self) -> (r: &ModelTexture)
        ensures
            r == self.texture,
    {
        &self.texture
    }
}

/// One drawable instance: a shared textured model with a pose of its own.
#[derive(Clone, Copy, PartialEq, Eq, Structural, Debug)]
pub struct Entity {
    pub model: TexturedModel,
    pub position: Vec3,
    pub rot_x: Rot,
    pub rot_y: Rot,
    pub rot_z: Rot,
    pub scale: i64,
}

/// The pose of an entity stays within the ranges the fixed-point matrix
/// arithmetic accepts.
pub open spec fn entity_wf(e: Entity) -> bool {
    &&& vec3_wf(e.position)
    &&& rot_wf(e.rot_x)
    &&& rot_wf(e.rot_y)
    &&& rot_wf(e.rot_z)
    &&& scale_factor_wf(e.scale)
}

impl Entity {
    /// The shared textured model.
    pub fn get_model(&self) -> (r: &TexturedModel)
        ensures
            r == self.model,
    {
        &self.model
    }

    /// The position of this instance.
    pub fn get_position(&self) -> (r: Vec3)
        ensures
            r == self.position,
    {
        self.position
    }

    /// The rotation about the x axis.
    pub fn get_rotation_x(&self) -> (r: Rot)
        ensures
            r == self.rot_x,
    {
        self.rot_x
    }

    /// The rotation about the y axis.
    pub fn get_rotation_y(&self) -> (r: Rot)
        ensures
            r == self.rot_y,
    {
        self.rot_y
    }

    /// The rotation about the z axis.
    pub fn get_rotation_z(&self) -> (r: Rot)
        ensures
            r == self.rot_z,
    {
        self.rot_z
    }

    /// The uniform scale of this instance.
    pub fn get_scale(&self) -> (r: i64)
        ensures
            r == self.scale,
    {
        self.scale
    }
}

/// The display configuration the renderer is built against: the viewport
/// the projection matrix is computed for.
#[derive(Clone, Copy, PartialEq, Eq, Structural, Debug)]
pub struct DisplayConfig {
    pub width: i32,
    pub height: i32,
}

/// The handle of a compiled and linked shader program; the program itself
/// lives with the native context.
#[derive(Clone, Copy, PartialEq, Eq, Structural, Debug)]
pub struct ShaderProgram {
    pub program_id: u32,
}

} // verus!
