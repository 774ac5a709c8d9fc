//! The bytes of a finished blob.

use vstd::prelude::*;

use crate::text::{copy_or_empty, opt_view, seq_or_empty};

verus! {

/// Owned bytes of a blob produced by `BlobWriter::finalize`.
///
/// The buffer holds the bytes upstream produced together with the size
/// upstream reported for them; [`Buffer::to_vec`] copies the bytes out when
/// they must outlive the handle.
#[derive(Debug)]
pub struct Buffer {
    bytes: Vec<u8>,
    size: usize,
}

impl View for Buffer {
    /// The readable bytes, and the size upstream reported for the buffer.
    type V = (Seq<u8>, usize);

    closed spec fn view(&self) -> (Seq<u8>, usize) {
        (self.bytes@, self.size)
    }
}

impl Buffer {
    /// Takes ownership of the bytes of a finished blob; its size is their
    /// number.
    pub fn from_vec(bytes: Vec<u8>) -> (b: Buffer)
        ensures
            b@.0 == bytes@,
            b@.1 == bytes@.len(),
    {
        let size = bytes.len();
        Buffer { bytes, size }
    }

    /// Copies out a buffer upstream allocated, from its data pointer (given
    /// as the slice it points to, `None` when the pointer is null) and the
    /// size upstream reports. A null pointer or a zero size reads as no
    /// bytes; the size is kept as upstream reported it.
    pub fn from_upstream(data: Option<&[u8]>, size: usize) -> (b: Buffer)
        ensures
            b@.1 == size,
            size == 0 ==> b@.0.len() == 0,
            data is None ==> b@.0.len() == 0,
            size != 0 ==> b@.0 == seq_or_empty(opt_view(data)),
            size != 0 && data is Some ==> b@.0 == data.unwrap()@ && b@.0.len()
                == data.unwrap()@.len(),
    {
        let bytes = if size == 0 {
            Vec::new()
        } else {
            copy_or_empty(data)
        };
        Buffer { bytes, size }
    }

    /// The bytes, borrowed for as long as the buffer lives.
    pub fn as_slice(&self) -> (s: &[u8])
        ensures
            s@ == self@.0,
    {
        self.bytes.as_slice()
    }

    /// The size upstream reported for the buffer.
    pub fn len(&self) -> (n: usize)
        ensures
            n == self@.1,
    {
        self.size
    }

    /// Whether the reported size is zero.
    pub fn is_empty(&self) -> (r: bool)
        ensures
            r == (self@.1 == 0),
    {
        self.len() == 0
    }

    /// A copy of the bytes that outlives the buffer.
    pub fn to_vec(&self) -> (v: Vec<u8>)
        ensures
            v@ == self@.0,
    {
        vstd::slice::slice_to_vec(self.as_slice())
    }
}

} // verus!
