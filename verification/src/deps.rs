//! Parsing of the compiler's dependency-listing output.
//!
//! The compiler's dependency query prints one Makefile-style rule:
//! `target.o: dep1 dep2 \` with continuation lines marked by a trailing
//! backslash.  The parse splits the output on whitespace, discards the
//! line-continuation markers, discards the first remaining token (the target
//! name, which is metadata rather than a dependency), and keeps every other
//! token as a dependency path, taken as-is.

use vstd::prelude::*;

verus! {

/// Whitespace as it occurs in compiler output: space, tab, newline, carriage
/// return.
pub open spec fn is_ws(c: char) -> bool {
    c == ' ' || c == '\t' || c == '\n' || c == '\r'
}

/// Splitting `s` on whitespace, with `cur` the partial token read so far.
pub open spec fn split_ws_from(s: Seq<char>, cur: Seq<char>) -> Seq<Seq<char>>
    decreases s.len(),
{
    if s.len() == 0 {
        if cur.len() == 0 {
            Seq::empty()
        } else {
            seq![cur]
        }
    } else if is_ws(s[0]) {
        if cur.len() == 0 {
            split_ws_from(s.drop_first(), Seq::empty())
        } else {
            seq![cur] + split_ws_from(s.drop_first(), Seq::empty())
        }
    } else {
        split_ws_from(s.drop_first(), cur.push(s[0]))
    }
}

/// The maximal whitespace-free tokens of `s`, in order.
pub open spec fn split_ws(s: Seq<char>) -> Seq<Seq<char>> {
    split_ws_from(s, Seq::empty())
}

/// A line-continuation marker: a token that is a single backslash.
pub open spec fn is_continuation(t: Seq<char>) -> bool {
    t.len() == 1 && t[0] == '\\'
}

/// The tokens of the list with the continuation markers removed.
pub open spec fn keep_tokens(toks: Seq<Seq<char>>) -> Seq<Seq<char>>
    decreases toks.len(),
{
    if toks.len() == 0 {
        Seq::empty()
    } else if is_continuation(toks.last()) {
        keep_tokens(toks.drop_last())
    } else {
        keep_tokens(toks.drop_last()).push(toks.last())
    }
}

/// Everything after the leading target token, if any.
pub open spec fn after_target(toks: Seq<Seq<char>>) -> Seq<Seq<char>> {
    if toks.len() == 0 {
        Seq::empty()
    } else {
        toks.drop_first()
    }
}

/// The dependency paths encoded in one dependency-listing output.
pub open spec fn deps_spec(s: Seq<char>) -> Seq<Seq<char>> {
    after_target(keep_tokens(split_ws(s)))
}

/// Whether `c` is whitespace in the sense of the parse.
pub fn ws_char(c: char) -> (r: bool)
    ensures
        r == is_ws(c),
{
    c == ' ' || c == '\t' || c == '\n' || c == '\r'
}

/// Splits `s` into its maximal whitespace-free tokens.
pub fn split_whitespace_tokens(s: &str) -> (toks: Vec<String>)
    ensures
        toks.deep_view() == split_ws(s@),
{
    let n: usize = s.unicode_len();
    let mut toks: Vec<String> = Vec::new();
    let mut i: usize = 0;
    let mut start: usize = 0;
    let mut in_tok: bool = false;
    proof {
        assert(toks.deep_view() =~~= Seq::<Seq<char>>::empty());
        assert(s@.skip(0) =~= s@);
        assert(Seq::<Seq<char>>::empty() + split_ws(s@) =~~= split_ws(s@));
    }
    while i < n
        invariant
            n == s@.len(),
            0 <= i <= n,
            in_tok ==> 0 <= start < i,
            in_tok ==> forall|j: int| start <= j < i ==> !is_ws(s@[j]),
            ({
                let cur = if in_tok {
                    s@.subrange(start as int, i as int)
                } else {
                    Seq::<char>::empty()
                };
                toks.deep_view() + split_ws_from(s@.skip(i as int), cur) == split_ws(s@)
            }),
        decreases n - i,
    {
        let ghost cur = if in_tok {
            s@.subrange(start as int, i as int)
        } else {
            Seq::<char>::empty()
        };
        proof {
            assert(s@.skip(i as int)[0] == s@[i as int]);
            assert(s@.skip(i as int).drop_first() =~= s@.skip(i + 1));
        }
        let c = s.get_char(i);
        if ws_char(c) {
            if in_tok {
                let t = s.substring_char(start, i);
                let towned = String::from_str(t);
                proof {
                    assert(cur.len() > 0);
                    assert(split_ws_from(s@.skip(i as int), cur) == seq![cur] + split_ws_from(
                        s@.skip(i + 1),
                        Seq::<char>::empty(),
                    ));
                }
                let ghost before = toks.deep_view();
                toks.push(towned);
                proof {
                    assert(toks.deep_view() =~~= before + seq![cur]);
                    assert((before + seq![cur]) + split_ws_from(s@.skip(i + 1), Seq::<char>::empty())
                        =~~= before + (seq![cur] + split_ws_from(
                        s@.skip(i + 1),
                        Seq::<char>::empty(),
                    )));
                }
                in_tok = false;
            }
        } else {
            if !in_tok {
                start = i;
                in_tok = true;
                proof {
                    assert(s@.subrange(i as int, i + 1) =~= Seq::<char>::empty().push(s@[i as int]));
                }
            } else {
                proof {
                    assert(s@.subrange(start as int, i + 1) =~= cur.push(s@[i as int]));
                }
            }
        }
        i += 1;
    }
    if in_tok {
        let t = s.substring_char(start, n);
        let towned = String::from_str(t);
        let ghost cur = s@.subrange(start as int, n as int);
        proof {
            assert(s@.skip(n as int).len() == 0);
            assert(split_ws_from(s@.skip(n as int), cur) == seq![cur]);
        }
        let ghost before = toks.deep_view();
        toks.push(towned);
        proof {
            assert(toks.deep_view() =~~= before + seq![cur]);
        }
    } else {
        proof {
            assert(s@.skip(n as int).len() == 0);
            assert(toks.deep_view() + Seq::<Seq<char>>::empty() =~~= toks.deep_view());
        }
    }
    toks
}

/// Whether the token is a line-continuation marker.
pub fn continuation_token(t: &String) -> (r: bool)
    ensures
        r == is_continuation(t@),
{
    if t.as_str().unicode_len() == 1 {
        t.as_str().get_char(0) == '\\'
    } else {
        false
    }
}

/// Drops the continuation markers and the leading target token, keeping the
/// dependency paths in order.
pub fn extract_deps(toks: &Vec<String>) -> (deps: Vec<String>)
    ensures
        deps.deep_view() == after_target(keep_tokens(toks.deep_view())),
{
    let mut deps: Vec<String> = Vec::new();
    let mut seen_target: bool = false;
    let mut j: usize = 0;
    while j < toks.len()
        invariant
            0 <= j <= toks.len(),
            seen_target == (keep_tokens(toks.deep_view().take(j as int)).len() > 0),
            deps.deep_view() == after_target(keep_tokens(toks.deep_view().take(j as int))),
        decreases toks.len() - j,
    {
        let ghost tv = toks.deep_view();
        let ghost kept = keep_tokens(tv.take(j as int));
        proof {
            assert(tv.take(j + 1).drop_last() =~~= tv.take(j as int));
            assert(tv.take(j + 1).last() == tv[j as int]);
            assert(toks@[j as int]@ == tv[j as int]);
        }
        let t = &toks[j];
        if !continuation_token(t) {
            proof {
                assert(keep_tokens(tv.take(j + 1)) == kept.push(tv[j as int]));
            }
            if seen_target {
                let ghost before = deps.deep_view();
                deps.push(t.clone());
                proof {
                    assert(kept.len() > 0);
                    assert(deps.deep_view() =~~= before.push(tv[j as int]));
                    assert(kept.push(tv[j as int]).drop_first() =~~= kept.drop_first().push(
                        tv[j as int],
                    ));
                }
            } else {
                seen_target = true;
                proof {
                    assert(kept.len() == 0);
                    assert(after_target(kept.push(tv[j as int])) =~~= Seq::<Seq<char>>::empty());
                }
            }
        } else {
            proof {
                assert(keep_tokens(tv.take(j + 1)) == kept);
            }
        }
        j += 1;
    }
    proof {
        assert(toks.deep_view().take(toks.deep_view().len() as int) =~~= toks.deep_view());
    }
    deps
}

/// Parses one dependency-listing output into the dependency paths it reports.
pub fn parse_dependencies(s: &str) -> (deps: Vec<String>)
    ensures
        deps.deep_view() == deps_spec(s@),
{
    let toks = split_whitespace_tokens(s);
    extract_deps(&toks)
}

} // verus!
