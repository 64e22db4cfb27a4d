//! Plain descriptions of GPU-side choices: buffer binding targets,
//! texture wrapping and filtering modes, and the errors GPU resource
//! creation can report. The graphics calls themselves happen outside
//! this library; these types only carry the choices to them.

use vstd::prelude::*;

verus! {

/// Why a GPU resource operation failed; creation failures are fatal for
/// the operation that triggered them.
#[derive(Debug)]
pub enum RenderingError {
    BufferOverflow,
    ShaderCompilation(String),
    ProgramLink(String),
    SetImage2D(String),
}

/// The binding target a buffer is created for.
#[derive(Debug, Clone, Copy, PartialEq, Eq, Structural)]
pub enum Target {
    ParameterBuffer,
    ArrayBuffer,
    ElementArrayBuffer,
    PixelPackBuffer,
    PixelUnpackBuffer,
    UniformBuffer,
    TextureBuffer,
    TransformFeedbackBuffer,
    CopyReadBuffer,
    CopyWriteBuffer,
    DrawIndirectBuffer,
    ShaderStorageBuffer,
    DispatchIndirectBuffer,
    QueryBuffer,
    AtomicCounterBuffer,
}

/// How texture coordinates outside the unit square wrap.
#[derive(Debug, Clone, Copy, PartialEq, Eq, Structural)]
pub enum Wrap {
    Repeat,
    ClampToEdge,
    ClampToBorder,
    MirroredRepeat,
}

/// How a texture is sampled when it is drawn smaller than its pixels.
#[derive(Debug, Clone, Copy, PartialEq, Eq, Structural)]
pub enum MinFilter {
    Nearest,
    Linear,
    NearestMipmapNearest,
    NearestMipmapLinear,
    LinearMipmapNearest,
    LinearMipmapLinear,
}

/// How a texture is sampled when it is drawn larger than its pixels.
#[derive(Debug, Clone, Copy, PartialEq, Eq, Structural)]
pub enum MagFilter {
    Nearest,
    Linear,
}

} // verus!
