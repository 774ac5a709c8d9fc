//! Permutation axes: each pairs a name with the values it can take.

use vstd::prelude::*;

use crate::error::{Error, Result};
use crate::text::cstring;

verus! {

/// Whether a permutation axis varies a preprocessor constant or a type
/// parameter.
#[derive(Debug, Clone, Copy, PartialEq, Eq, Structural)]
pub enum PermutationDefineKind {
    /// `#define NAME=VALUE` style.
    Constant,
    /// Generic type parameter specialisation (e.g. `T = float`).
    Type,
}

/// One axis as a specification sees it: its name, its kind and its values.
pub type AxisView = (Seq<char>, PermutationDefineKind, Seq<Seq<char>>);

/// The text of every string in a slice, in order.
pub open spec fn strs_view(values: Seq<&str>) -> Seq<Seq<char>> {
    values.map_values(|v: &str| v@)
}

/// Whether some string of the slice holds a NUL character.
pub open spec fn any_holds_nul(values: Seq<&str>) -> bool {
    exists|i: int| 0 <= i < values.len() && (#[trigger] values[i])@.contains('\0')
}

/// Law of the axis view: the values keep their number and order, each read
/// as its text.
pub proof fn law_strs_view(values: Seq<&str>)
    ensures
        strs_view(values).len() == values.len(),
        forall|i: int| 0 <= i < values.len() ==> #[trigger] strs_view(values)[i] == values[i]@,
{
}

/// Law of refusal: an axis is refused exactly when one of its values holds
/// a NUL character; every other character is accepted.
pub proof fn law_value_refusal(values: Seq<&str>)
    ensures
        any_holds_nul(values) <==> exists|i: int|
            0 <= i < values.len() && (#[trigger] values[i])@.contains('\0'),
{
}

/// Declaration of permutation axes, in the order they were pushed.
///
/// Build a list with [`PermutationDefines::push`]; the Cartesian product of
/// the axes is what upstream expands a list into.
#[derive(Debug)]
pub struct PermutationDefines {
    axes: Vec<(String, PermutationDefineKind, Vec<String>)>,
}

impl View for PermutationDefines {
    type V = Seq<AxisView>;

    closed spec fn view(&self) -> Seq<AxisView> {
        self.axes@.map_values(
            |a: (String, PermutationDefineKind, Vec<String>)|
                (a.0@, a.1, a.2@.map_values(|v: String| v@)),
        )
    }
}

impl PermutationDefines {
    /// An empty declaration.
    pub fn new() -> (r: Result<Self>)
        ensures
            r matches Ok(d) && d@.len() == 0,
    {
        let d = PermutationDefines { axes: Vec::new() };
        assert(d@ =~= Seq::<AxisView>::empty());
        Ok(d)
    }

    /// Appends the axis `name` of the given `kind` with `values`.
    ///
    /// The name and every value cross the C boundary, so each must be free
    /// of NUL characters; otherwise the declaration is left unchanged and
    /// the result is [`Error::StringNul`].
    pub fn push(&mut self, name: &str, kind: PermutationDefineKind, values: &[&str]) -> (r: Result<
        (),
    >)
        ensures
            r is Err <==> (name@.contains('\0') || any_holds_nul(values@)),
            r matches Err(e) ==> e is StringNul && final(self)@ == old(self)@,
            r is Ok ==> final(self)@ == old(self)@.push((name@, kind, strs_view(values@))),
            r is Err <==> (name@.contains('\0') || exists|i: int|
                0 <= i < values@.len() && (#[trigger] values@[i])@.contains('\0')),
            r is Ok ==> {
                &&& final(self)@.len() == old(self)@.len() + 1
                &&& forall|j: int|
                    0 <= j < old(self)@.len() ==> #[trigger] final(self)@[j] == old(self)@[j]
                &&& final(self)@.last().0 == name@
                &&& final(self)@.last().1 == kind
                &&& final(self)@.last().2.len() == values@.len()
                &&& forall|i: int|
                    0 <= i < values@.len() ==> #[trigger] final(self)@.last().2[i]
                        == values@[i]@
            },
    {
        if cstring(name).is_err() {
            return Err(Error::StringNul);
        }
        let mut owned: Vec<String> = Vec::new();
        let n = values.len();
        let mut i: usize = 0;
        while i < n
            invariant
                n == values@.len(),
                i <= n,
                owned@.len() == i,
                forall|k: int| 0 <= k < i ==> (#[trigger] owned@[k])@ == values@[k]@,
                forall|j: int| 0 <= j < i ==> !(#[trigger] values@[j])@.contains('\0'),
            decreases n - i,
        {
            let v: &str = values[i];
            if cstring(v).is_err() {
                assert(values@[i as int]@.contains('\0'));
                return Err(Error::StringNul);
            }
            owned.push(v.to_owned());
            i = i + 1;
        }
        assert(!any_holds_nul(values@));
        assert(owned@.map_values(|v: String| v@) =~= strs_view(values@));
        let ghost before = self@;
        self.axes.push((name.to_owned(), kind, owned));
        assert(self@ =~= before.push((name@, kind, strs_view(values@))));
        Ok(())
    }

    /// The number of axes.
    pub fn len(&self) -> (n: usize)
        ensures
            n == self@.len(),
    {
        self.axes.len()
    }

    /// Whether no axis has been declared.
    pub fn is_empty(&self) -> (r: bool)
        ensures
            r == (self@.len() == 0),
    {
        self.len() == 0
    }

    /// Every axis in order: its name, its kind and its values.
    pub fn iter(&self) -> (r: Vec<(&str, PermutationDefineKind, Vec<&str>)>)
        ensures
            r@.len() == self@.len(),
            forall|i: int|
                0 <= i < r@.len() ==> {
                    &&& (#[trigger] r@[i]).0@ == self@[i].0
                    &&& r@[i].1 == self@[i].1
                    &&& strs_view(r@[i].2@) == self@[i].2
                    &&& r@[i].2@.len() == self@[i].2.len()
                    &&& forall|j: int|
                        0 <= j < r@[i].2@.len() ==> (#[trigger] r@[i].2@[j])@ == self@[i].2[j]
                },
    {
        let mut out: Vec<(&str, PermutationDefineKind, Vec<&str>)> = Vec::new();
        let n = self.axes.len();
        let mut i: usize = 0;
        while i < n
            invariant
                n == self.axes@.len(),
                n == self@.len(),
                i <= n,
                out@.len() == i,
                forall|k: int|
                    0 <= k < i ==> {
                        &&& (#[trigger] out@[k]).0@ == self@[k].0
                        &&& out@[k].1 == self@[k].1
                        &&& strs_view(out@[k].2@) == self@[k].2
                    },
            decreases n - i,
        {
            let axis = &self.axes[i];
            let m = axis.2.len();
            let mut vals: Vec<&str> = Vec::new();
            let mut j: usize = 0;
            while j < m
                invariant
                    m == axis.2@.len(),
                    j <= m,
                    vals@.len() == j,
                    forall|k: int| 0 <= k < j ==> (#[trigger] vals@[k])@ == axis.2@[k]@,
                decreases m - j,
            {
                vals.push(axis.2[j].as_str());
                j = j + 1;
            }
            assert(strs_view(vals@) =~= axis.2@.map_values(|v: String| v@));
            out.push((axis.0.as_str(), axis.1, vals));
            i = i + 1;
        }
        out
    }
}

} // verus!
