//! Path derivation for compilation units.
//!
//! File names are flat (no directory components): a unit's object file keeps
//! the source file's base name with the object extension, and lives under the
//! output root.  Recognized compilation-unit extensions are `.cpp` and `.cc`;
//! object files carry `.o`.

use vstd::prelude::*;

verus! {

/// The characters of the `.cpp` extension.
pub open spec fn cpp_ext() -> Seq<char> {
    seq!['.', 'c', 'p', 'p']
}

/// The characters of the `.cc` extension.
pub open spec fn cc_ext() -> Seq<char> {
    seq!['.', 'c', 'c']
}

/// The characters of the `.o` extension.
pub open spec fn obj_ext() -> Seq<char> {
    seq!['.', 'o']
}

/// Whether `s` ends with `suf`.
pub open spec fn has_suffix(s: Seq<char>, suf: Seq<char>) -> bool {
    s.len() >= suf.len() && s.subrange(s.len() - suf.len(), s.len() as int) == suf
}

/// A recognized compilation-unit name: a non-empty base name followed by a
/// recognized source extension.
pub open spec fn is_source_name_spec(s: Seq<char>) -> bool {
    (s.len() > cpp_ext().len() && has_suffix(s, cpp_ext())) || (s.len() > cc_ext().len()
        && has_suffix(s, cc_ext()))
}

/// An object-file name: a non-empty base name followed by the object
/// extension.
pub open spec fn is_object_name_spec(s: Seq<char>) -> bool {
    s.len() > obj_ext().len() && has_suffix(s, obj_ext())
}

/// The object-file name derived from a recognized source name: the base name
/// with the source extension replaced by the object extension.
pub open spec fn object_name_spec(s: Seq<char>) -> Seq<char>
    recommends
        is_source_name_spec(s),
{
    if has_suffix(s, cpp_ext()) {
        s.subrange(0, s.len() - cpp_ext().len()) + obj_ext()
    } else {
        s.subrange(0, s.len() - cc_ext().len()) + obj_ext()
    }
}

/// The path of `name` under the directory `dir`.
pub open spec fn joined_spec(dir: Seq<char>, name: Seq<char>) -> Seq<char> {
    dir + seq!['/'] + name
}

/// Whether the string `s` ends with the string `suf`.
pub fn has_suffix_str(s: &str, suf: &str) -> (r: bool)
    ensures
        r == has_suffix(s@, suf@),
{
    let n: usize = s.unicode_len();
    let m: usize = suf.unicode_len();
    if n < m {
        return false;
    }
    let mut k: usize = 0;
    while k < m
        invariant
            n == s@.len(),
            m == suf@.len(),
            m <= n,
            0 <= k <= m,
            forall|q: int| 0 <= q < k ==> s@[n - m + q] == suf@[q],
        decreases m - k,
    {
        if s.get_char(n - m + k) != suf.get_char(k) {
            assert(s@[n - m + k] != suf@[k as int]);
            assert(!(s@.subrange(s@.len() - suf@.len(), s@.len() as int) == suf@)) by {
                assert(s@.subrange(s@.len() - suf@.len(), s@.len() as int)[k as int] == s@[n - m
                    + k]);
            }
            return false;
        }
        k += 1;
    }
    proof {
        assert(s@.subrange(s@.len() - suf@.len(), s@.len() as int) =~= suf@);
    }
    true
}

/// Whether `s` is a recognized compilation-unit name.
pub fn is_source_name(s: &str) -> (r: bool)
    ensures
        r == is_source_name_spec(s@),
{
    proof {
        reveal_strlit(".cpp");
        reveal_strlit(".cc");
        assert(".cpp"@ =~= cpp_ext());
        assert(".cc"@ =~= cc_ext());
    }
    let n: usize = s.unicode_len();
    (n > 4 && has_suffix_str(s, ".cpp")) || (n > 3 && has_suffix_str(s, ".cc"))
}

/// Whether `s` is an object-file name.
pub fn is_object_name(s: &str) -> (r: bool)
    ensures
        r == is_object_name_spec(s@),
{
    proof {
        reveal_strlit(".o");
        assert(".o"@ =~= obj_ext());
    }
    let n: usize = s.unicode_len();
    n > 2 && has_suffix_str(s, ".o")
}

/// Derives the object-file name of a recognized source name.
pub fn object_file_name(s: &str) -> (r: String)
    requires
        is_source_name_spec(s@),
    ensures
        r@ == object_name_spec(s@),
{
    proof {
        reveal_strlit(".cpp");
        reveal_strlit(".o");
        assert(".cpp"@ =~= cpp_ext());
        assert(".o"@ =~= obj_ext());
    }
    let n: usize = s.unicode_len();
    if has_suffix_str(s, ".cpp") {
        let stem = s.substring_char(0, n - 4);
        String::from_str(stem).concat(".o")
    } else {
        let stem = s.substring_char(0, n - 3);
        String::from_str(stem).concat(".o")
    }
}

/// Joins a directory path and a file name with a separator.
pub fn join_path(dir: &str, name: &str) -> (r: String)
    ensures
        r@ == joined_spec(dir@, name@),
{
    proof {
        reveal_strlit("/");
        assert("/"@ =~= seq!['/']);
    }
    String::from_str(dir).concat("/").concat(name)
}

} // verus!
