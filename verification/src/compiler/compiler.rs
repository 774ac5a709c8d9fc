//! The outcome of compiling one permutation.

use vstd::prelude::*;
use vstd::utf8::{decode_utf8, valid_utf8};

use crate::error::{Error, Result};
use crate::text::{
    copy_or_empty, lossy_or_empty, opt_view, seq_or_empty, spec_lossy_or_empty,
    spec_text_or_empty, text_or_empty, utf8_lossy,
};

verus! {

/// Successful compile output: bytecode, reflection data, diagnostics, and
/// the source files Slang touched.
#[derive(Debug)]
pub struct CompileResult {
    code: Vec<u8>,
    reflection: Vec<u8>,
    diagnostics: String,
    dependencies: Vec<String>,
}

/// The text of every dependency path the compile reported, each read as
/// the accessors read a C string.
pub open spec fn dependencies_text(raw: Seq<Option<&[u8]>>) -> Seq<Seq<char>> {
    raw.map_values(|d: Option<&[u8]>| spec_text_or_empty(opt_view(d)))
}

/// Law of the dependency list: one entry per reported dependency, in
/// order, each the decoding of its path when that is present and valid
/// UTF-8, and the empty text otherwise.
pub proof fn law_dependencies_text(raw: Seq<Option<&[u8]>>)
    ensures
        dependencies_text(raw).len() == raw.len(),
        forall|i: int|
            0 <= i < raw.len() ==> {
                &&& (#[trigger] raw[i]) is Some && valid_utf8(raw[i].unwrap()@)
                    ==> dependencies_text(raw)[i] == decode_utf8(raw[i].unwrap()@)
                &&& (raw[i] is None || !valid_utf8(raw[i].unwrap()@))
                    ==> dependencies_text(raw)[i].len() == 0
            },
{
}

impl CompileResult {
    /// The bytecode as a specification sees it.
    pub closed spec fn code_view(&self) -> Seq<u8> {
        self.code@
    }

    /// The reflection data as a specification sees it.
    pub closed spec fn reflection_view(&self) -> Seq<u8> {
        self.reflection@
    }

    /// The diagnostics as a specification sees them.
    pub closed spec fn diagnostics_view(&self) -> Seq<char> {
        self.diagnostics@
    }

    /// The dependency paths as a specification sees them.
    pub closed spec fn dependencies_view(&self) -> Seq<Seq<char>> {
        self.dependencies@.map_values(|d: String| d@)
    }

    /// Decides the outcome of one upstream compile from what the compile
    /// reported.
    ///
    /// When the compile's `success` flag is false the result is
    /// [`Error::Compile`] carrying the diagnostics, decoded leniently (a null
    /// pointer gives no text). Otherwise it is the compile output: absent
    /// code or reflection reads as empty, and the diagnostics and each
    /// dependency path read as the accessors read a C string (a null pointer
    /// or invalid UTF-8 gives the empty string).
    pub fn from_outcome(
        success: bool,
        diagnostics: Option<&[u8]>,
        code: Option<&[u8]>,
        reflection: Option<&[u8]>,
        dependencies: &[Option<&[u8]>],
    ) -> (r: Result<CompileResult>)
        ensures
            r is Ok <==> success,
            r matches Err(e) ==> e matches Error::Compile { diagnostics: d } && d@
                == spec_lossy_or_empty(opt_view(diagnostics)) && ((diagnostics matches Some(b)
                && valid_utf8(b@)) ==> d@ == decode_utf8(diagnostics.unwrap()@)),
            r matches Ok(c) ==> {
                &&& c.code_view() == seq_or_empty(opt_view(code))
                &&& c.reflection_view() == seq_or_empty(opt_view(reflection))
                &&& c.diagnostics_view() == spec_text_or_empty(opt_view(diagnostics))
                &&& c.dependencies_view() == dependencies_text(dependencies@)
                &&& code is Some ==> c.code_view() == code.unwrap()@
                &&& code is None ==> c.code_view().len() == 0
                &&& reflection is Some ==> c.reflection_view() == reflection.unwrap()@
                &&& reflection is None ==> c.reflection_view().len() == 0
                &&& diagnostics is Some && valid_utf8(diagnostics.unwrap()@)
                    ==> c.diagnostics_view() == decode_utf8(diagnostics.unwrap()@)
                &&& (diagnostics is None || !valid_utf8(diagnostics.unwrap()@))
                    ==> c.diagnostics_view().len() == 0
                &&& c.dependencies_view().len() == dependencies@.len()
                &&& forall|i: int|
                    0 <= i < dependencies@.len() ==> {
                        &&& (#[trigger] dependencies@[i]) is Some && valid_utf8(
                            dependencies@[i].unwrap()@,
                        ) ==> c.dependencies_view()[i] == decode_utf8(dependencies@[i].unwrap()@)
                        &&& (dependencies@[i] is None || !valid_utf8(dependencies@[i].unwrap()@))
                            ==> c.dependencies_view()[i].len() == 0
                    }
            },
            r matches Err(e) ==> e matches Error::Compile { diagnostics: d } && (diagnostics is None
                ==> d@.len() == 0) && (diagnostics is Some ==> d@ == utf8_lossy(
                diagnostics.unwrap()@,
            )),
    {
        if !success {
            return Err(Error::Compile { diagnostics: lossy_or_empty(diagnostics) });
        }
        let n = dependencies.len();
        let mut deps: Vec<String> = Vec::new();
        let mut i: usize = 0;
        while i < n
            invariant
                n == dependencies@.len(),
                i <= n,
                deps@.len() == i,
                forall|k: int|
                    0 <= k < i ==> (#[trigger] deps@[k])@ == spec_text_or_empty(
                        opt_view(dependencies@[k]),
                    ),
            decreases n - i,
        {
            let t = text_or_empty(dependencies[i]);
            deps.push(t.to_owned());
            i = i + 1;
        }
        assert(deps@.map_values(|d: String| d@) =~= dependencies_text(dependencies@));
        let diag = text_or_empty(diagnostics);
        Ok(
            CompileResult {
                code: copy_or_empty(code),
                reflection: copy_or_empty(reflection),
                diagnostics: diag.to_owned(),
                dependencies: deps,
            },
        )
    }

    /// The compiled bytecode.
    pub fn code(&self) -> (c: &[u8])
        ensures
            c@ == self.code_view(),
    {
        self.code.as_slice()
    }

    /// The serialized reflection data.
    pub fn reflection(&self) -> (r: &[u8])
        ensures
            r@ == self.reflection_view(),
    {
        self.reflection.as_slice()
    }

    /// The compiler's diagnostics.
    pub fn diagnostics(&self) -> (d: &str)
        ensures
            d@ == self.diagnostics_view(),
    {
        self.diagnostics.as_str()
    }

    /// Every source file Slang touched, in the order upstream reported them.
    pub fn dependencies(&self) -> (r: Vec<&str>)
        ensures
            r@.map_values(|s: &str| s@) == self.dependencies_view(),
            r@.len() == self.dependencies_view().len(),
            forall|i: int| 0 <= i < r@.len() ==> (#[trigger] r@[i])@ == self.dependencies_view()[i],
    {
        let n = self.dependencies.len();
        let mut out: Vec<&str> = Vec::new();
        let mut i: usize = 0;
        while i < n
            invariant
                n == self.dependencies@.len(),
                i <= n,
                out@.len() == i,
                forall|k: int| 0 <= k < i ==> (#[trigger] out@[k])@ == self.dependencies@[k]@,
            decreases n - i,
        {
            out.push(self.dependencies[i].as_str());
            i = i + 1;
        }
        assert(out@.map_values(|s: &str| s@) =~= self.dependencies_view());
        out
    }
}

} // verus!
