//! Compile side of slangmake: the outcome of compiling one permutation.

#[allow(clippy::module_inception)]
mod compiler;

pub use compiler::CompileResult;
