//! The settings that select how shaders are compiled and packed.

use vstd::prelude::*;

verus! {

/// Compile target backend selected via `CompileOptions::target` and
/// recorded in the blob header by `BlobWriter`.
#[derive(Debug, Clone, Copy, PartialEq, Eq, Hash, Structural)]
pub enum Target {
    Spirv,
    Dxil,
    Dxbc,
    Hlsl,
    Glsl,
    Metal,
    MetalLib,
    Wgsl,
}

/// Optimization level forwarded to the Slang backend.
#[derive(Debug, Clone, Copy, PartialEq, Eq, Hash, Structural)]
pub enum Optimization {
    /// No optimization (upstream `SM_OPT_NONE`).
    NoOptimization,
    Default,
    High,
    Maximal,
}

/// Compression codec applied to the blob's payload section.
///
/// When reading, `BlobReader::compression` always reports [`Codec::NoCompression`]
/// because upstream rewrites the header field after decompressing the
/// payload in place.
#[derive(Debug, Clone, Copy, PartialEq, Eq, Hash, Structural)]
pub enum Codec {
    /// Stored uncompressed (upstream `SM_CODEC_NONE`).
    NoCompression,
    Lz4,
    Zstd,
}

/// Matrix storage layout passed through to the Slang frontend.
#[derive(Debug, Clone, Copy, PartialEq, Eq, Hash, Structural)]
pub enum MatrixLayout {
    RowMajor,
    ColumnMajor,
}

/// Floating-point evaluation mode.
#[derive(Debug, Clone, Copy, PartialEq, Eq, Hash, Structural)]
pub enum FloatingPointMode {
    Default,
    Fast,
    Precise,
}

} // verus!
