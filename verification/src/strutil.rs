//! Byte-level and character-level string comparison helpers.
//!
//! The session manager keys documents by URI and dispatches on language
//! identifiers, so it needs an executable string equality whose result is
//! pinned to the mathematical view of the strings.

use vstd::prelude::*;

verus! {

use vstd::string::StringSliceAdditionalSpecFns;
use vstd::utf8::encode_utf8_decode_utf8;

/// Returns whether the two byte slices hold exactly the same bytes.
pub fn bytes_eq(a: &[u8], b: &[u8]) -> (r: bool)
    ensures
        r == (a@ == b@),
{
    if a.len() != b.len() {
        assert(a@ != b@);
        return false;
    }
    let n: usize = a.len();
    let mut i: usize = 0;
    while i < n
        invariant
            n == a@.len(),
            n == b@.len(),
            0 <= i <= n,
            forall|j: int| 0 <= j < i ==> a@[j] == b@[j],
        decreases n - i,
    {
        if a[i] != b[i] {
            return false;
        }
        i = i + 1;
    }
    proof {
        assert(a@ =~= b@);
    }
    true
}

/// Returns whether the two strings are equal, stated over their views.
pub fn str_eq(a: &str, b: &str) -> (r: bool)
    ensures
        r == (a@ == b@),
{
    let r = bytes_eq(a.as_bytes(), b.as_bytes());
    proof {
        if a.spec_bytes() == b.spec_bytes() {
            encode_utf8_decode_utf8(a@);
            encode_utf8_decode_utf8(b@);
            assert(a@ == b@);
        }
    }
    r
}

/// The needle occurs in the haystack starting at position `i`.
pub open spec fn is_match_at(hay: Seq<u8>, needle: Seq<u8>, i: int) -> bool {
    &&& 0 <= i
    &&& i + needle.len() <= hay.len()
    &&& hay.subrange(i, i + needle.len()) == needle
}

/// The needle occurs somewhere in the haystack.
pub open spec fn spec_contains_bytes(hay: Seq<u8>, needle: Seq<u8>) -> bool {
    exists|i: int| is_match_at(hay, needle, i)
}

/// Returns whether `needle` occurs as a contiguous run of bytes inside
/// `hay`; an empty needle occurs everywhere.
pub fn contains_bytes(hay: &[u8], needle: &[u8]) -> (r: bool)
    ensures
        r == spec_contains_bytes(hay@, needle@),
{
    let nl: usize = needle.len();
    let hl: usize = hay.len();
    if nl == 0 {
        proof {
            assert(hay@.subrange(0, 0) =~= needle@);
            assert(is_match_at(hay@, needle@, 0));
        }
        return true;
    }
    if nl > hl {
        return false;
    }
    let mut i: usize = 0;
    while i <= hl - nl
        invariant
            nl <= hl,
            nl >= 1,
            0 <= i <= hl - nl + 1,
            hl == hay@.len(),
            nl == needle@.len(),
            forall|i2: int| 0 <= i2 < i ==> !is_match_at(hay@, needle@, i2),
        decreases hl - nl - i + 1,
    {
        let mut j: usize = 0;
        while j < nl && hay[i + j] == needle[j]
            invariant
                nl <= hl,
                0 <= i <= hl - nl,
                0 <= j <= nl,
                hl == hay@.len(),
                nl == needle@.len(),
                forall|j2: int| 0 <= j2 < j ==> hay@[i + j2] == needle@[j2],
            decreases nl - j,
        {
            j = j + 1;
        }
        if j == nl {
            proof {
                assert(hay@.subrange(i as int, i + nl) =~= needle@);
                assert(is_match_at(hay@, needle@, i as int));
            }
            return true;
        }
        proof {
            assert(hay@.subrange(i as int, i + nl)[j as int] == hay@[i + j]);
            assert(!is_match_at(hay@, needle@, i as int));
        }
        i = i + 1;
    }
    proof {
        assert forall|i2: int| !is_match_at(hay@, needle@, i2) by {
            if 0 <= i2 < i {
            }
        }
    }
    false
}

/// Returns whether `needle` occurs inside `hay`, stated over the strings'
/// byte encodings.
pub fn str_contains(hay: &str, needle: &str) -> (r: bool)
    ensures
        r == spec_contains_bytes(hay.spec_bytes(), needle.spec_bytes()),
{
    contains_bytes(hay.as_bytes(), needle.as_bytes())
}

/// Returns whether a directory entry counts as hidden: its name starts with
/// an ASCII dot.
pub fn is_hidden_name(name: &str) -> (r: bool)
    ensures
        r == (name.spec_bytes().len() > 0 && name.spec_bytes()[0] == 46),
{
    let bytes = name.as_bytes();
    bytes.len() > 0 && bytes[0] == 46
}

} // verus!
