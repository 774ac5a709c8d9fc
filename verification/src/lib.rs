//! Verified core of a wrapper around slangmake, a build tool that compiles
//! Slang shader permutations into a single `.bin` blob holding every
//! variant's bytecode and full reflection data.
//!
//! The library holds the values a user reads (blob bytes, entries,
//! compile results, permutation axes) and every decision the wrapper makes
//! about what the C ABI hands back: status codes, null handles, the text of
//! C strings, and the NUL-free strings it hands over.

mod buffer;
mod enums;
pub mod error;
mod permutation;
pub mod text;

pub mod compiler;
pub mod runtime;

pub use buffer::Buffer;
pub use enums::{Codec, FloatingPointMode, MatrixLayout, Optimization, Target};
pub use error::{Error, Result};
pub use permutation::{PermutationDefineKind, PermutationDefines};
