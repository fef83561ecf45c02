use vstd::prelude::*;
use crate::scalar::Scalar;

verus! {

/// Number of indices of the full-screen quad: two triangles.
pub const QUAD_INDEX_COUNT: i32 = 6;

/// Components per vertex of the full-screen quad.
pub const QUAD_VERTEX_SIZE: i32 = 3;

/// The uniforms that the shaders of the solver declare.
#[derive(Clone, Copy, PartialEq, Eq, Structural, Debug, Hash)]
pub enum Uniform {
    DeltaX,
    DeltaT,
    VecFieldTexture,
    ColorFieldTexture,
    QTexture,
    Alpha,
    RBeta,
    X,
    B,
    W,
    P,
    Scale,
    Rho,
    Force,
    ImpulsePos,
    VelocityFieldTexture,
    Color,
    Vorticity,
    V,
}

impl Uniform {
    /// The identifier under which the shader source declares the uniform.
    pub open spec fn spec_name(self) -> Seq<char> {
        match self {
            Uniform::DeltaX => "delta_x"@,
            Uniform::DeltaT => "delta_t"@,
            Uniform::VecFieldTexture => "vec_field_texture"@,
            Uniform::ColorFieldTexture => "color_field_texture"@,
            Uniform::QTexture => "qtexture"@,
            Uniform::Alpha => "alpha"@,
            Uniform::RBeta => "r_beta"@,
            Uniform::X => "x"@,
            Uniform::B => "b"@,
            Uniform::W => "w"@,
            Uniform::P => "p"@,
            Uniform::Scale => "scale"@,
            Uniform::Rho => "rho"@,
            Uniform::Force => "force"@,
            Uniform::ImpulsePos => "impulse_pos"@,
            Uniform::VelocityFieldTexture => "velocity_field_texture"@,
            Uniform::Color => "color"@,
            Uniform::Vorticity => "vorticity"@,
            Uniform::V => "v"@,
        }
    }

    /// The identifier under which the shader source declares the uniform.
    pub fn name(self) -> (s: &'static str)
        ensures
            s@ == self.spec_name(),
    {
        match self {
            Uniform::DeltaX => "delta_x",
            Uniform::DeltaT => "delta_t",
            Uniform::VecFieldTexture => "vec_field_texture",
            Uniform::ColorFieldTexture => "color_field_texture",
            Uniform::QTexture => "qtexture",
            Uniform::Alpha => "alpha",
            Uniform::RBeta => "r_beta",
            Uniform::X => "x",
            Uniform::B => "b",
            Uniform::W => "w",
            Uniform::P => "p",
            Uniform::Scale => "scale",
            Uniform::Rho => "rho",
            Uniform::Force => "force",
            Uniform::ImpulsePos => "impulse_pos",
            Uniform::VelocityFieldTexture => "velocity_field_texture",
            Uniform::Color => "color",
            Uniform::Vorticity => "vorticity",
            Uniform::V => "v",
        }
    }
}

/// What a non-sampler uniform is set to.
#[derive(Clone, Copy, PartialEq, Eq, Structural, Debug)]
pub enum UniformValue {
    Float(Scalar),
    Float2(Scalar, Scalar),
    Float3(Scalar, Scalar, Scalar),
}

/// A non-sampler uniform together with its value.
#[derive(Clone, Copy, PartialEq, Eq, Structural, Debug)]
pub struct UniformBinding {
    pub name: Uniform,
    pub value: UniformValue,
}

/// A sampler uniform together with the slot of the texture it reads.
#[derive(Clone, Copy, PartialEq, Eq, Structural, Debug)]
pub struct SamplerBinding {
    pub name: Uniform,
    pub texture: usize,
}

/// Channel storage of a field texture.
#[derive(Clone, Copy, PartialEq, Eq, Structural, Debug)]
pub enum Storage {
    /// Four 32-bit floats per texel.
    Float32,
    /// Four 8-bit unsigned values per texel.
    Unsigned8,
}

/// Sampling parameters that every field texture is given.
#[derive(Clone, Copy, PartialEq, Eq, Structural, Debug)]
pub enum TextureParameter {
    /// Linear minification filter.
    MinFilterLinear,
    /// Horizontal coordinates clamp to the edge.
    WrapSClampToEdge,
    /// Vertical coordinates clamp to the edge.
    WrapTClampToEdge,
}

/// One call on the graphics context.
///
/// Fields, textures and framebuffers are named by slot: the owner of the
/// context keeps the objects behind the slots. Programs and geometry buffers
/// are named by the handles that the render pass was built with.
#[derive(Clone, Copy, PartialEq, Eq, Structural, Debug)]
pub enum GpuCommand {
    /// Create a framebuffer object and keep it under `slot`.
    CreateFramebuffer { slot: usize },
    /// Create a texture object and keep it under `slot`.
    CreateTexture { slot: usize },
    /// Delete the texture kept under `slot`.
    DeleteTexture { slot: usize },
    /// Delete the framebuffer kept under `slot`.
    DeleteFramebuffer { slot: usize },
    /// Direct draws to the framebuffer of slot `target`, or to the screen.
    BindFramebuffer { target: Option<usize> },
    /// Bind the texture of slot `texture` to the active unit, or unbind.
    BindTexture { texture: Option<usize> },
    /// Give the bound texture an RGBA image of the given size; `seeded`
    /// says that the caller's pixels are uploaded with it.
    TexImage { width: i32, height: i32, storage: Storage, seeded: bool },
    /// Set one sampling parameter of the bound texture.
    TexParameter { parameter: TextureParameter },
    /// Attach the texture of `slot` as the colour target of the bound
    /// framebuffer.
    AttachColorTexture { slot: usize },
    /// Set the clear colour.
    ClearColor { red: Scalar, green: Scalar, blue: Scalar, alpha: Scalar },
    /// Set the clear depth.
    ClearDepth { depth: Scalar },
    /// Enable depth testing.
    EnableDepthTest,
    /// Depth comparison passes on less-or-equal.
    DepthFuncLequal,
    /// Clear the colour and depth buffers.
    Clear,
    /// Make `program` current.
    UseProgram { program: usize },
    /// Set a float uniform of the current program.
    Uniform1f { name: Uniform, x: Scalar },
    /// Set a two-component uniform of the current program.
    Uniform2f { name: Uniform, x: Scalar, y: Scalar },
    /// Set a three-component uniform of the current program.
    Uniform3f { name: Uniform, x: Scalar, y: Scalar, z: Scalar },
    /// Point a sampler uniform of the current program at a texture unit.
    Uniform1i { name: Uniform, unit: usize },
    /// Select the texture unit that later binds refer to.
    ActiveTexture { unit: usize },
    /// Bind a vertex buffer.
    BindArrayBuffer { buffer: usize },
    /// Describe attribute `index` as `size` floats per vertex, tightly packed.
    VertexAttribPointer { index: u32, size: i32 },
    /// Enable attribute `index`.
    EnableVertexAttribArray { index: u32 },
    /// Bind an index buffer.
    BindElementArrayBuffer { buffer: usize },
    /// Draw `count` 16-bit indices as triangles.
    DrawElements { count: i32 },
}

} // verus!
