//! The graphics commands the renderer issues.
//!
//! The renderer never touches the native context itself: it appends
//! commands to its buffer, in the order they must run. An unverified
//! shell executes them one by one; within the single rendering thread a
//! later binding simply overrides an earlier one.

use vstd::prelude::*;

verus! {

use crate::maths::Mat4;

/// One graphics command. Colors and material parameters are fixed-point
/// raw values; handles are the native identifiers they were created with.
#[derive(Clone, Copy, PartialEq, Eq, Structural, Debug)]
pub enum GlCommand {
    /// Enable culling of one face of every triangle.
    EnableCullFace,
    /// Cull the back face.
    CullBackFace,
    /// Enable the depth test.
    EnableDepthTest,
    /// Clear the color and depth buffers.
    ClearColorAndDepth,
    /// Set the clear color, as fixed-point red, green, blue and alpha.
    SetClearColor { red: i64, green: i64, blue: i64, alpha: i64 },
    /// Activate a shader program for the following uniform uploads.
    StartShader { program_id: u32 },
    /// Deactivate the active shader program.
    StopShader,
    /// Upload a projection matrix to the projection uniform.
    LoadProjectionMatrix { matrix: Mat4 },
    /// Upload a model-to-world matrix to the transformation uniform.
    LoadTransformationMatrix { matrix: Mat4 },
    /// Upload the specular material parameters.
    LoadShineVariables { shine_damper: i64, reflectivity: i64 },
    /// Bind a vertex array, or unbind with zero.
    BindVertexArray { vao_id: u32 },
    /// Enable one vertex attribute slot.
    EnableVertexAttribArray { index: u32 },
    /// Disable one vertex attribute slot.
    DisableVertexAttribArray { index: u32 },
    /// Select the active texture unit.
    ActiveTextureUnit { unit: u32 },
    /// Bind a two-dimensional texture to the active unit.
    BindTexture2d { texture_id: u32 },
    /// Draw indexed triangles from the bound vertex array.
    DrawTrianglesIndexed { index_count: i32 },
}

} // verus!
