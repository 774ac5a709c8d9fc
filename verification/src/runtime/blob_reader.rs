//! One entry of a packed blob, as a reader hands it out.

use vstd::prelude::*;
use vstd::utf8::{decode_utf8, valid_utf8};

use crate::error::StatusCodes;
use crate::text::{seq_or_empty, copy_or_empty, opt_view, spec_text_or_empty, text_or_empty};

verus! {

/// One entry of a blob: the canonical key of its permutation, its
/// bytecode, its reflection data and the indices of the dependencies it
/// was built from.
#[derive(Debug)]
pub struct BlobEntry {
    key: String,
    code: Vec<u8>,
    reflection: Vec<u8>,
    dep_indices: Vec<u32>,
}

impl BlobEntry {
    /// The permutation key as a specification sees it.
    pub closed spec fn key_view(&self) -> Seq<char> {
        self.key@
    }

    /// The bytecode as a specification sees it.
    pub closed spec fn code_view(&self) -> Seq<u8> {
        self.code@
    }

    /// The reflection data as a specification sees it.
    pub closed spec fn reflection_view(&self) -> Seq<u8> {
        self.reflection@
    }

    /// The dependency indices as a specification sees it.
    pub closed spec fn dep_indices_view(&self) -> Seq<u32> {
        self.dep_indices@
    }

    /// Builds an entry from the fields of the C record. An absent field (a
    /// null pointer, or a zero length) reads as empty; a key that is not
    /// UTF-8 reads as the empty string.
    pub fn from_parts(
        key: Option<&[u8]>,
        code: Option<&[u8]>,
        reflection: Option<&[u8]>,
        dep_indices: Option<&[u32]>,
    ) -> (e: BlobEntry)
        ensures
            e.key_view() == spec_text_or_empty(opt_view(key)),
            e.code_view() == seq_or_empty(opt_view(code)),
            e.reflection_view() == seq_or_empty(opt_view(reflection)),
            e.dep_indices_view() == seq_or_empty(opt_view(dep_indices)),
            key is None ==> e.key_view().len() == 0,
            key is Some && valid_utf8(key.unwrap()@) ==> e.key_view() == decode_utf8(key.unwrap()@),
            key is Some && !valid_utf8(key.unwrap()@) ==> e.key_view().len() == 0,
            code is Some ==> e.code_view() == code.unwrap()@,
            code is None ==> e.code_view().len() == 0,
            reflection is Some ==> e.reflection_view() == reflection.unwrap()@,
            reflection is None ==> e.reflection_view().len() == 0,
            dep_indices is Some ==> e.dep_indices_view() == dep_indices.unwrap()@,
            dep_indices is None ==> e.dep_indices_view().len() == 0,
    {
        let k = text_or_empty(key);
        BlobEntry {
            key: k.to_owned(),
            code: copy_or_empty(code),
            reflection: copy_or_empty(reflection),
            dep_indices: copy_or_empty(dep_indices),
        }
    }

    /// The entry a lookup by index or by permutation returned: present
    /// exactly when upstream reported `SM_OK`, and then built from the
    /// fields of the record as [`BlobEntry::from_parts`] builds it.
    pub fn from_lookup(
        status: i32,
        codes: &StatusCodes,
        key: Option<&[u8]>,
        code: Option<&[u8]>,
        reflection: Option<&[u8]>,
        dep_indices: Option<&[u32]>,
    ) -> (r: Option<BlobEntry>)
        ensures
            r is Some <==> status == codes.ok,
            r matches Some(e) ==> {
                &&& e.key_view() == spec_text_or_empty(opt_view(key))
                &&& e.code_view() == seq_or_empty(opt_view(code))
                &&& e.reflection_view() == seq_or_empty(opt_view(reflection))
                &&& e.dep_indices_view() == seq_or_empty(opt_view(dep_indices))
                &&& key is Some && valid_utf8(key.unwrap()@) ==> e.key_view() == decode_utf8(
                    key.unwrap()@,
                )
                &&& (key is None || !valid_utf8(key.unwrap()@)) ==> e.key_view().len() == 0
                &&& code is Some ==> e.code_view() == code.unwrap()@
                &&& code is None ==> e.code_view().len() == 0
                &&& reflection is Some ==> e.reflection_view() == reflection.unwrap()@
                &&& reflection is None ==> e.reflection_view().len() == 0
                &&& dep_indices is Some ==> e.dep_indices_view() == dep_indices.unwrap()@
                &&& dep_indices is None ==> e.dep_indices_view().len() == 0
            },
    {
        if status == codes.ok {
            Some(BlobEntry::from_parts(key, code, reflection, dep_indices))
        } else {
            None
        }
    }

    /// The canonical key of the entry's permutation.
    pub fn key(&self) -> (k: &str)
        ensures
            k@ == self.key_view(),
    {
        self.key.as_str()
    }

    /// The compiled bytecode.
    pub fn code(&self) -> (c: &[u8])
        ensures
            c@ == self.code_view(),
    {
        self.code.as_slice()
    }

    /// The serialized reflection data.
    pub fn reflection(&self) -> (r: &[u8])
        ensures
            r@ == self.reflection_view(),
    {
        self.reflection.as_slice()
    }

    /// Indices into the blob's dependency table.
    pub fn dep_indices(&self) -> (d: &[u32])
        ensures
            d@ == self.dep_indices_view(),
    {
        self.dep_indices.as_slice()
    }
}

} // verus!
