//! Values crossing the C boundary: reading the NUL-terminated strings and
//! the possibly-null slices that upstream hands back, and checking the
//! strings handed to it.

use vstd::prelude::*;
use vstd::string::StringSliceAdditionalSpecFns;
use vstd::utf8::{decode_utf8, valid_utf8};

use crate::error::{Error, Result};

verus! {

/// What `String::from_utf8_lossy` makes of a byte sequence: the decoded
/// text, with each invalid sequence replaced by U+FFFD.
pub uninterp spec fn utf8_lossy(bytes: Seq<u8>) -> Seq<char>;

/// `std::str::from_utf8`: succeeds exactly when `bytes` is valid UTF-8, and
/// the text it returns is made of those very bytes. Which error it reports
/// on invalid input is not stated.
#[verifier::external_body]
fn str_from_utf8(bytes: &[u8]) -> (r: core::result::Result<&str, std::str::Utf8Error>)
    ensures
        r is Ok <==> valid_utf8(bytes@),
        r matches Ok(s) ==> s.spec_bytes() == bytes@,
{
    std::str::from_utf8(bytes)
}

/// `String::from_utf8_lossy`: the result is named [`utf8_lossy`] of the
/// bytes; on valid UTF-8 it is the plain decoding, as the std documentation
/// says. Which replacement text stands for invalid sequences is left to the
/// name.
#[verifier::external_body]
fn string_from_utf8_lossy(bytes: &[u8]) -> (r: String)
    ensures
        r@ == utf8_lossy(bytes@),
        valid_utf8(bytes@) ==> r@ == decode_utf8(bytes@),
{
    String::from_utf8_lossy(bytes).into_owned()
}

/// The text of a C string that may be absent, decoded strictly: a null
/// pointer (`None`) or invalid UTF-8 both read as the empty string.
pub open spec fn spec_text_or_empty(raw: Option<Seq<u8>>) -> Seq<char> {
    match raw {
        Some(b) => if valid_utf8(b) {
            decode_utf8(b)
        } else {
            Seq::empty()
        },
        None => Seq::empty(),
    }
}

/// The text of a C string that may be absent, decoded leniently: a null
/// pointer reads as the empty string, anything else through
/// `String::from_utf8_lossy`.
pub open spec fn spec_lossy_or_empty(raw: Option<Seq<u8>>) -> Seq<char> {
    match raw {
        Some(b) => utf8_lossy(b),
        None => Seq::empty(),
    }
}

/// Maps a slice that may be absent to its view, the absent slice
/// reading as the empty sequence.
pub open spec fn seq_or_empty<T>(raw: Option<Seq<T>>) -> Seq<T> {
    match raw {
        Some(b) => b,
        None => Seq::empty(),
    }
}

/// The view of a slice that may be absent.
pub open spec fn opt_view<T>(raw: Option<&[T]>) -> Option<Seq<T>> {
    match raw {
        Some(b) => Some(b@),
        None => None,
    }
}

/// Copies a slice that may be absent; an absent slice (a null pointer or a
/// zero length on the C side) gives an empty vector.
pub fn copy_or_empty<T: Copy>(raw: Option<&[T]>) -> (r: Vec<T>)
    ensures
        r@ == seq_or_empty(opt_view(raw)),
        raw is Some ==> r@ == raw.unwrap()@ && r@.len() == raw.unwrap()@.len(),
        raw is None ==> r@.len() == 0,
{
    match raw {
        Some(s) => vstd::slice::slice_to_vec(s),
        None => Vec::new(),
    }
}

/// Law of strict reading: every valid UTF-8 byte sequence, whatever its
/// length, reads as its decoding, which encodes back to exactly those bytes;
/// only a null pointer or invalid bytes read as the empty text.
pub proof fn law_text_or_empty(b: Seq<u8>)
    ensures
        valid_utf8(b) ==> spec_text_or_empty(Some(b)) == decode_utf8(b),
        valid_utf8(b) ==> vstd::utf8::encode_utf8(spec_text_or_empty(Some(b))) == b,
        !valid_utf8(b) ==> spec_text_or_empty(Some(b)).len() == 0,
        spec_text_or_empty(None).len() == 0,
{
    if valid_utf8(b) {
        vstd::utf8::decode_utf8_encode_utf8(b);
    }
}

/// Law of lenient reading: a present byte sequence reads through
/// `String::from_utf8_lossy`, so valid UTF-8 reads as its decoding whatever
/// its length; a null pointer reads as the empty text.
pub proof fn law_lossy_or_empty(b: Seq<u8>)
    ensures
        spec_lossy_or_empty(Some(b)) == utf8_lossy(b),
        spec_lossy_or_empty(None).len() == 0,
{
}

/// Law of copying: a present slice is kept whole, element for element and
/// with its length; an absent one is empty.
pub proof fn law_seq_or_empty<T>(s: &[T])
    ensures
        opt_view(Some(s)) == Some(s@),
        opt_view::<T>(None) is None,
        seq_or_empty(opt_view(Some(s))) == s@,
        seq_or_empty(opt_view(Some(s))).len() == s@.len(),
        seq_or_empty::<T>(None).len() == 0,
{
}

proof fn lemma_str_bytes_decode(s: &str, bytes: Seq<u8>)
    requires
        s.spec_bytes() == bytes,
    ensures
        valid_utf8(bytes),
        s@ == decode_utf8(bytes),
{
    broadcast use vstd::utf8::encode_utf8_decode_utf8, vstd::utf8::encode_utf8_valid_utf8;
    assert(s.spec_bytes() == vstd::utf8::encode_utf8(s@));
}

proof fn lemma_encode_scalar_nul(v: u32)
    requires
        vstd::utf8::is_scalar(v),
    ensures
        vstd::utf8::encode_scalar(v).contains(0u8) <==> v == 0,
{
    let e = vstd::utf8::encode_scalar(v);
    if vstd::utf8::has_width_1_encoding(v) {
        assert(((v & 0x7F) as u8 == 0u8) <==> v == 0) by (bit_vector)
            requires
                v <= 0x7F,
        ;
        assert(e[0] == (v & 0x7F) as u8);
        if v == 0 {
            assert(e[0] == 0u8);
        }
    } else {
        assert forall|x: u32| #![trigger (0xC0u8 | x as u8)] (0xC0u8 | x as u8) != 0u8 by {
            assert((0xC0u8 | x as u8) != 0u8) by (bit_vector);
        }
        assert forall|x: u32| #![trigger (0xE0u8 | x as u8)] (0xE0u8 | x as u8) != 0u8 by {
            assert((0xE0u8 | x as u8) != 0u8) by (bit_vector);
        }
        assert forall|x: u32| #![trigger (0xF0u8 | x as u8)] (0xF0u8 | x as u8) != 0u8 by {
            assert((0xF0u8 | x as u8) != 0u8) by (bit_vector);
        }
        assert forall|x: u32| #![trigger (0x80u8 | x as u8)] (0x80u8 | x as u8) != 0u8 by {
            assert((0x80u8 | x as u8) != 0u8) by (bit_vector);
        }
        assert forall|i: int| 0 <= i < e.len() implies e[i] != 0u8 by {}
    }
}

proof fn lemma_encode_utf8_nul(chars: Seq<char>)
    ensures
        vstd::utf8::encode_utf8(chars).contains(0u8) <==> chars.contains('\0'),
    decreases chars.len(),
{
    if chars.len() == 0 {
        assert(!chars.contains('\0'));
    } else {
        let head = vstd::utf8::encode_scalar(chars[0] as u32);
        let rest = chars.drop_first();
        let tail = vstd::utf8::encode_utf8(rest);
        vstd::utf8::char_is_scalar(chars[0]);
        lemma_encode_scalar_nul(chars[0] as u32);
        lemma_encode_utf8_nul(rest);
        let all = vstd::utf8::encode_utf8(chars);
        assert(all == head + tail);
        vstd::utf8::char_u32_cast(chars[0], chars[0] as u32);
        vstd::utf8::char_u32_cast('\0', '\0' as u32);
        assert(('\0' as u32) == 0);
        assert((chars[0] as u32 == 0) <==> chars[0] == '\0');
        if all.contains(0u8) {
            let i = choose|i: int| 0 <= i < all.len() && all[i] == 0u8;
            if i < head.len() {
                assert(head[i] == 0u8);
                assert(chars[0] == '\0');
            } else {
                assert(tail[i - head.len()] == 0u8);
                let j = choose|j: int| 0 <= j < rest.len() && rest[j] == '\0';
                assert(chars[j + 1] == '\0');
            }
        }
        if chars.contains('\0') {
            let j = choose|j: int| 0 <= j < chars.len() && chars[j] == '\0';
            if j == 0 {
                let i = choose|i: int| 0 <= i < head.len() && head[i] == 0u8;
                assert(all[i] == 0u8);
            } else {
                assert(rest[j - 1] == '\0');
                let i = choose|i: int| 0 <= i < tail.len() && tail[i] == 0u8;
                assert(all[head.len() + i] == 0u8);
            }
        }
    }
}

/// Reads a string accessor of the C ABI the way every accessor of this
/// crate does (`to_str().unwrap_or_default()`): a null pointer (`None`) or
/// bytes that are not UTF-8 give `""`.
pub fn text_or_empty<'a>(raw: Option<&'a [u8]>) -> (r: &'a str)
    ensures
        r@ == spec_text_or_empty(
            match raw {
                Some(b) => Some(b@),
                None => None,
            },
        ),
        raw is None ==> r@.len() == 0,
        raw is Some && valid_utf8(raw.unwrap()@) ==> r@ == decode_utf8(raw.unwrap()@),
        raw is Some && !valid_utf8(raw.unwrap()@) ==> r@.len() == 0,
{
    proof {
        reveal_strlit("");
    }
    match raw {
        None => "",
        Some(b) => match str_from_utf8(b) {
            Ok(s) => {
                proof {
                    lemma_str_bytes_decode(s, b@);
                }
                s
            },
            Err(_) => "",
        },
    }
}

/// Reads a diagnostic string of the C ABI leniently
/// (`to_string_lossy().into_owned()`): a null pointer gives the empty
/// string, anything else is decoded with invalid sequences replaced.
pub fn lossy_or_empty(raw: Option<&[u8]>) -> (r: String)
    ensures
        r@ == spec_lossy_or_empty(
            match raw {
                Some(b) => Some(b@),
                None => None,
            },
        ),
        raw is None ==> r@.len() == 0,
        raw is Some ==> r@ == utf8_lossy(raw.unwrap()@),
        raw is Some && valid_utf8(raw.unwrap()@) ==> r@ == decode_utf8(raw.unwrap()@),
{
    match raw {
        None => String::new(),
        Some(b) => string_from_utf8_lossy(b),
    }
}

/// Reads a string of the C ABI that must be UTF-8, such as a permutation's
/// canonical key: a null pointer gives `Ok("")`, valid UTF-8 gives its text, and
/// anything else is [`Error::Utf8`].
pub fn checked_text<'a>(raw: Option<&'a [u8]>) -> (r: Result<&'a str>)
    ensures
        match raw {
            None => r matches Ok(s) && s@ == Seq::<char>::empty(),
            Some(b) => {
                &&& r is Ok <==> valid_utf8(b@)
                &&& r matches Ok(s) ==> s@ == decode_utf8(b@) && s.spec_bytes() == b@
                &&& r matches Err(e) ==> e is Utf8
            },
        },
{
    proof {
        reveal_strlit("");
    }
    match raw {
        None => Ok(""),
        Some(b) => match str_from_utf8(b) {
            Ok(s) => {
                proof {
                    lemma_str_bytes_decode(s, b@);
                }
                Ok(s)
            },
            Err(e) => Err(Error::Utf8(e)),
        },
    }
}

/// The bytes of the C string that holds `s`: its UTF-8 encoding followed by
/// the terminating NUL; `None` when `s` itself holds a NUL byte, which the
/// C API cannot carry.
pub fn c_string_bytes(s: &str) -> (r: Option<Vec<u8>>)
    ensures
        r is None <==> s.spec_bytes().contains(0u8),
        r matches Some(v) ==> v@ == s.spec_bytes().push(0u8),
{
    let bytes = s.as_bytes();
    let n = bytes.len();
    let mut out: Vec<u8> = Vec::new();
    let mut i: usize = 0;
    while i < n
        invariant
            n == bytes@.len(),
            bytes@ == s.spec_bytes(),
            i <= n,
            out@ == bytes@.subrange(0, i as int),
            forall|j: int| 0 <= j < i ==> bytes@[j] != 0u8,
        decreases n - i,
    {
        if bytes[i] == 0u8 {
            assert(bytes@[i as int] == 0u8);
            return None;
        }
        out.push(bytes[i]);
        i = i + 1;
        assert(out@ =~= bytes@.subrange(0, i as int));
    }
    assert(out@ =~= bytes@);
    out.push(0u8);
    Some(out)
}

/// Checks a string bound for the C API (`CString::new`): the bytes of its
/// C string, or [`Error::StringNul`] when it holds a NUL byte.
pub fn cstring(s: &str) -> (r: Result<Vec<u8>>)
    ensures
        r is Err <==> s.spec_bytes().contains(0u8),
        r is Err <==> s@.contains('\0'),
        r matches Err(e) ==> e is StringNul,
        r matches Ok(v) ==> v@ == s.spec_bytes().push(0u8),
        r matches Ok(v) ==> {
            &&& v@.last() == 0u8
            &&& !v@.drop_last().contains(0u8)
            &&& valid_utf8(v@.drop_last())
            &&& decode_utf8(v@.drop_last()) == s@
        },
{
    proof {
        lemma_encode_utf8_nul(s@);
        lemma_str_bytes_decode(s, s.spec_bytes());
        assert(s.spec_bytes().push(0u8).drop_last() =~= s.spec_bytes());
    }
    match c_string_bytes(s) {
        Some(v) => Ok(v),
        None => Err(Error::StringNul),
    }
}

/// Checks a filesystem path bound for the C API, given its text (the
/// path read lossily as UTF-8) and the path itself: the bytes of the C
/// string of the text, or [`Error::PathNul`] carrying the path when the
/// text holds a NUL character.
pub fn path_cstring(text: &str, path: std::path::PathBuf) -> (r: Result<Vec<u8>>)
    ensures
        r is Err <==> text@.contains('\0'),
        r matches Err(e) ==> e == (Error::PathNul { path }),
        r matches Ok(v) ==> v@ == text.spec_bytes().push(0u8),
{
    proof {
        lemma_encode_utf8_nul(text@);
    }
    match c_string_bytes(text) {
        Some(v) => Ok(v),
        None => Err(Error::PathNul { path }),
    }
}

} // verus!
