//! Deterministic discovery order.
//!
//! Both phases enumerate a directory, keep the file names of a recognized
//! kind, and order them lexicographically by code point, so that repeated
//! runs over an unchanged tree make tool invocations in the same order.

use crate::paths::{is_object_name, is_object_name_spec, is_source_name, is_source_name_spec};
use vstd::prelude::*;
use vstd::seq_lib::group_to_multiset_ensures;
use vstd::seq_lib::{to_multiset_build, to_multiset_insert};

verus! {

/// Lexicographic order on names, by code point.
pub open spec fn lex_le(a: Seq<char>, b: Seq<char>) -> bool
    decreases a.len(),
{
    if a.len() == 0 {
        true
    } else if b.len() == 0 {
        false
    } else if (a[0] as u32) < (b[0] as u32) {
        true
    } else if (a[0] as u32) > (b[0] as u32) {
        false
    } else {
        lex_le(a.drop_first(), b.drop_first())
    }
}

/// Every adjacent pair of the sequence is in lexicographic order.
pub open spec fn sorted_lex(s: Seq<Seq<char>>) -> bool {
    forall|i: int| 0 <= i < s.len() - 1 ==> #[trigger] lex_le(s[i], s[i + 1])
}

/// Lexicographic order is total: of two names, one is less than or equal to
/// the other.
pub proof fn lemma_lex_le_total(a: Seq<char>, b: Seq<char>)
    ensures
        lex_le(a, b) || lex_le(b, a),
    decreases a.len(),
{
    if a.len() > 0 && b.len() > 0 && (a[0] as u32) == (b[0] as u32) {
        lemma_lex_le_total(a.drop_first(), b.drop_first());
    }
}

/// Decides the lexicographic order of two names.
pub fn lex_le_str(a: &str, b: &str) -> (r: bool)
    ensures
        r == lex_le(a@, b@),
{
    let n: usize = a.unicode_len();
    let m: usize = b.unicode_len();
    let mut i: usize = 0;
    proof {
        assert(a@.skip(0) =~= a@);
        assert(b@.skip(0) =~= b@);
    }
    loop
        invariant
            n == a@.len(),
            m == b@.len(),
            0 <= i <= n,
            0 <= i <= m,
            lex_le(a@, b@) == lex_le(a@.skip(i as int), b@.skip(i as int)),
        decreases n - i,
    {
        proof {
            if i < n {
                assert(a@.skip(i as int)[0] == a@[i as int]);
                assert(a@.skip(i as int).drop_first() =~= a@.skip(i + 1));
            }
            if i < m {
                assert(b@.skip(i as int)[0] == b@[i as int]);
                assert(b@.skip(i as int).drop_first() =~= b@.skip(i + 1));
            }
        }
        if i >= n {
            return true;
        }
        if i >= m {
            return false;
        }
        let ca = a.get_char(i) as u32;
        let cb = b.get_char(i) as u32;
        if ca < cb {
            return true;
        }
        if ca > cb {
            return false;
        }
        i += 1;
    }
}

/// The kind of file name a directory scan keeps.
pub enum NameKind {
    /// Recognized compilation-unit names.
    Source,
    /// Object-file names.
    Object,
}

/// Whether a name is of the given kind.
pub open spec fn name_matches(k: NameKind, n: Seq<char>) -> bool {
    match k {
        NameKind::Source => is_source_name_spec(n),
        NameKind::Object => is_object_name_spec(n),
    }
}

/// The names of the given kind, in their original order.
pub open spec fn filtered_names(k: NameKind, names: Seq<Seq<char>>) -> Seq<Seq<char>> {
    names.filter(|n: Seq<char>| name_matches(k, n))
}

/// Keeps the names of the given kind and orders them lexicographically: the
/// result is sorted and holds exactly the matching names of the input.
pub fn select_names(names: &Vec<String>, k: NameKind) -> (r: Vec<String>)
    ensures
        sorted_lex(r.deep_view()),
        r.deep_view().to_multiset() == filtered_names(k, names.deep_view()).to_multiset(),
        forall|q: int| 0 <= q < r.deep_view().len() ==> name_matches(k, r.deep_view()[q]),
{
    broadcast use group_to_multiset_ensures;

    let ghost nv = names.deep_view();
    let mut out: Vec<String> = Vec::new();
    let mut j: usize = 0;
    proof {
        reveal(Seq::filter);
        assert(nv.take(0) =~~= Seq::<Seq<char>>::empty());
        assert(out.deep_view() =~~= Seq::<Seq<char>>::empty());
        assert(filtered_names(k, nv.take(0)) =~~= Seq::<Seq<char>>::empty());
        assert(out.deep_view().to_multiset() =~= filtered_names(k, nv.take(0)).to_multiset());
    }
    while j < names.len()
        invariant
            nv == names.deep_view(),
            0 <= j <= names.len(),
            names@.len() == nv.len(),
            sorted_lex(out.deep_view()),
            out.deep_view().to_multiset() == filtered_names(k, nv.take(j as int)).to_multiset(),
            forall|q: int| 0 <= q < out.deep_view().len() ==> name_matches(k, out.deep_view()[q]),
        decreases names.len() - j,
    {
        let ghost before = out.deep_view();
        proof {
            assert(nv.take(j + 1).drop_last() =~~= nv.take(j as int));
            assert(nv.take(j + 1).last() == nv[j as int]);
            assert(names@[j as int]@ == nv[j as int]);
        }
        let name = &names[j];
        let matches = match k {
            NameKind::Source => is_source_name(name.as_str()),
            NameKind::Object => is_object_name(name.as_str()),
        };
        if matches {
            proof {
                reveal(Seq::filter);
                assert(filtered_names(k, nv.take(j + 1)) == filtered_names(k, nv.take(j as int)).push(
                    nv[j as int],
                ));
            }
            let mut idx: usize = 0;
            while idx < out.len() && lex_le_str(out[idx].as_str(), name.as_str())
                invariant
                    nv == names.deep_view(),
                    0 <= j < names@.len(),
                    names@.len() == nv.len(),
                    name@ == nv[j as int],
                    out.deep_view() == before,
                    0 <= idx <= out.len(),
                    forall|q: int| 0 <= q < idx ==> lex_le(before[q], nv[j as int]),
                decreases out.len() - idx,
            {
                idx += 1;
            }
            proof {
                if idx < out.len() {
                    lemma_lex_le_total(before[idx as int], nv[j as int]);
                    assert(lex_le(nv[j as int], before[idx as int]));
                }
            }
            let cloned = name.clone();
            let ghost prev = out@;
            out.insert(idx, cloned);
            proof {
                let after = out.deep_view();
                assert(out@ == prev.insert(idx as int, cloned));
                prev.insert_ensures(idx as int, cloned);
                before.insert_ensures(idx as int, nv[j as int]);
                assert(after =~~= before.insert(idx as int, nv[j as int])) by {
                    assert forall|q: int| 0 <= q < after.len() implies after[q] == before.insert(
                        idx as int,
                        nv[j as int],
                    )[q] by {
                        assert(after[q] == out@[q]@);
                        if q < idx {
                            assert(out@[q] == prev[q]);
                        } else if q == idx {
                            assert(out@[q] == cloned);
                        } else {
                            assert(out@[q] == prev[q - 1]);
                        }
                    }
                }
                to_multiset_insert(before, idx as int, nv[j as int]);
                assert forall|q: int| 0 <= q < after.len() - 1 implies #[trigger] lex_le(
                    after[q],
                    after[q + 1],
                ) by {
                    if q + 1 < idx {
                        assert(after[q] == before[q] && after[q + 1] == before[q + 1]);
                        assert(lex_le(before[q], before[q + 1]));
                    } else if q + 1 == idx {
                        assert(after[q] == before[q] && after[q + 1] == nv[j as int]);
                    } else if q == idx {
                        assert(after[q] == nv[j as int] && after[q + 1] == before[q]);
                        assert(lex_le(nv[j as int], before[q]));
                    } else {
                        assert(after[q] == before[q - 1] && after[q + 1] == before[q]);
                        assert(lex_le(before[q - 1], before[q]));
                    }
                }
                to_multiset_build(filtered_names(k, nv.take(j as int)), nv[j as int]);
                assert(filtered_names(k, nv.take(j as int)).push(nv[j as int]).to_multiset()
                    =~= filtered_names(k, nv.take(j as int)).to_multiset().insert(nv[j as int]));
                assert(after.to_multiset() =~= before.to_multiset().insert(nv[j as int]));
                assert(out.deep_view().to_multiset() == filtered_names(k, nv.take(j + 1)).to_multiset());
            }
        } else {
            proof {
                reveal(Seq::filter);
                assert(filtered_names(k, nv.take(j + 1)) == filtered_names(k, nv.take(j as int)));
            }
        }
        j += 1;
    }
    proof {
        assert(nv.take(nv.len() as int) =~~= nv);
    }
    out
}

/// Keeps the recognized compilation-unit names, ordered lexicographically.
pub fn select_sources(names: &Vec<String>) -> (r: Vec<String>)
    ensures
        sorted_lex(r.deep_view()),
        r.deep_view().to_multiset() == filtered_names(
            NameKind::Source,
            names.deep_view(),
        ).to_multiset(),
        forall|q: int| 0 <= q < r.deep_view().len() ==> is_source_name_spec(r.deep_view()[q]),
{
    select_names(names, NameKind::Source)
}

/// Keeps the object-file names, ordered lexicographically.
pub fn select_objects(names: &Vec<String>) -> (r: Vec<String>)
    ensures
        sorted_lex(r.deep_view()),
        r.deep_view().to_multiset() == filtered_names(
            NameKind::Object,
            names.deep_view(),
        ).to_multiset(),
        forall|q: int| 0 <= q < r.deep_view().len() ==> is_object_name_spec(r.deep_view()[q]),
{
    select_names(names, NameKind::Object)
}

} // verus!
