//! Read side of slangmake: the entries of a packed blob, the dependency
//! records a blob carries, and the indices of a reflection blob.

mod blob_reader;
mod blob_writer;
mod reflection;

pub use blob_reader::BlobEntry;
pub use blob_writer::{dependency_cstrings, DependencyInfo};
pub use reflection::optional_index;
