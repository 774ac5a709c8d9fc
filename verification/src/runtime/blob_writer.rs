//! Dependency records stored in a blob.

use vstd::prelude::*;

use crate::error::{Error, Result};
use crate::text::cstring;

verus! {

/// One dependency record stored in the blob's dependency table.
///
/// `content_hash` is the FNV-1a 64 hash of the file's contents at compile
/// time, used by incremental rebuild to detect upstream changes.
#[derive(Debug, Clone)]
pub struct DependencyInfo {
    pub path: String,
    pub content_hash: u64,
}

/// Whether some record's path holds a NUL character.
pub open spec fn any_path_holds_nul(deps: Seq<DependencyInfo>) -> bool {
    exists|i: int| 0 <= i < deps.len() && (#[trigger] deps[i]).path@.contains('\0')
}

/// Law of refusal: a dependency table is refused exactly when one of its
/// paths holds a NUL character; every other character, a backslash or a
/// dot among them, is accepted.
pub proof fn law_path_refusal(deps: Seq<DependencyInfo>)
    ensures
        any_path_holds_nul(deps) <==> exists|i: int|
            0 <= i < deps.len() && (#[trigger] deps[i]).path@.contains('\0'),
        (forall|i: int| 0 <= i < deps.len() ==> !(#[trigger] deps[i]).path@.contains('\0'))
            ==> !any_path_holds_nul(deps),
{
}

/// The dependency table as the C ABI takes it: each record's path as the
/// bytes of a C string, paired with its content hash, in order.
///
/// Every path crosses the C boundary, so a path that holds a NUL character
/// makes the whole table [`Error::StringNul`].
pub fn dependency_cstrings(deps: &[DependencyInfo]) -> (r: Result<Vec<(Vec<u8>, u64)>>)
    ensures
        r is Err <==> any_path_holds_nul(deps@),
        r is Err <==> exists|i: int| 0 <= i < deps@.len() && (#[trigger] deps@[i]).path@.contains('\0'),
        r matches Err(e) ==> e is StringNul,
        r matches Ok(v) ==> {
            &&& v@.len() == deps@.len()
            &&& forall|i: int|
                0 <= i < v@.len() ==> {
                    &&& (#[trigger] v@[i]).0@ == vstd::utf8::encode_utf8(deps@[i].path@).push(0u8)
                    &&& v@[i].1 == deps@[i].content_hash
                }
        },
{
    let n = deps.len();
    let mut out: Vec<(Vec<u8>, u64)> = Vec::new();
    let mut i: usize = 0;
    while i < n
        invariant
            n == deps@.len(),
            i <= n,
            out@.len() == i,
            forall|k: int| 0 <= k < i ==> !(#[trigger] deps@[k]).path@.contains('\0'),
            forall|k: int|
                0 <= k < i ==> {
                    &&& (#[trigger] out@[k]).0@ == vstd::utf8::encode_utf8(deps@[k].path@).push(0u8)
                    &&& out@[k].1 == deps@[k].content_hash
                },
        decreases n - i,
    {
        let d = &deps[i];
        match cstring(d.path.as_str()) {
            Ok(c) => {
                out.push((c, d.content_hash));
            },
            Err(_) => {
                assert(deps@[i as int].path@.contains('\0'));
                return Err(Error::StringNul);
            },
        }
        i = i + 1;
    }
    Ok(out)
}

} // verus!
