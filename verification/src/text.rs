//! Verified text helpers for schema identifiers.
//!
//! Schema entities carry dotted, namespace-qualified names such as
//! `fbs.helloworld.HelloRequest`.  The functions here split such names at
//! their last dot, extract the unqualified trailing segment, and rewrite a
//! namespace into a Rust module path.

use vstd::prelude::*;

verus! {

use vstd::string::StrSliceExecFns;
use vstd::string::StringExecFns;

/// Index of the last occurrence of `c` in `s`, or -1 when `c` does not occur.
pub open spec fn last_index_of(s: Seq<char>, c: char) -> int
    decreases s.len(),
{
    if s.len() == 0 {
        -1
    } else if s[s.len() - 1] == c {
        s.len() - 1
    } else {
        last_index_of(s.drop_last(), c)
    }
}

/// `last_index_of` returns either -1 (no occurrence at all) or the largest
/// index holding `c`.
pub proof fn lemma_last_index_of(s: Seq<char>, c: char)
    ensures
        last_index_of(s, c) == -1 || (0 <= last_index_of(s, c) < s.len()),
        last_index_of(s, c) == -1 ==> forall|j: int| 0 <= j < s.len() ==> s[j] != c,
        last_index_of(s, c) >= 0 ==> s[last_index_of(s, c)] == c,
        forall|j: int| last_index_of(s, c) < j < s.len() ==> s[j] != c,
    decreases s.len(),
{
    if s.len() > 0 && s[s.len() - 1] != c {
        lemma_last_index_of(s.drop_last(), c);
        assert(forall|j: int| 0 <= j < s.len() - 1 ==> s[j] == s.drop_last()[j]);
    }
}

/// The segment after the last dot: the whole name when it has no dot.
pub open spec fn local_name(s: Seq<char>) -> Seq<char> {
    s.skip(last_index_of(s, '.') + 1)
}

/// The segment before the last dot, or `None` when the name has no dot.
pub open spec fn namespace_of(s: Seq<char>) -> Option<Seq<char>> {
    if last_index_of(s, '.') >= 0 {
        Some(s.take(last_index_of(s, '.')))
    } else {
        None
    }
}

/// Finds the index of the last dot of `s`, if any.
pub fn rfind_dot(s: &str) -> (r: Option<usize>)
    ensures
        match r {
            Some(i) => i == last_index_of(s@, '.') && 0 <= i < s@.len(),
            None => last_index_of(s@, '.') == -1,
        },
{
    let n = s.unicode_len();
    let mut i = n;
    while i > 0
        invariant
            i <= n,
            n == s@.len(),
            forall|j: int| i <= j < s@.len() ==> s@[j] != '.',
        decreases i,
    {
        i = i - 1;
        if s.get_char(i) == '.' {
            proof {
                lemma_last_index_of(s@, '.');
            }
            return Some(i);
        }
    }
    proof {
        lemma_last_index_of(s@, '.');
    }
    None
}

/// Returns the segment of `s` after its last dot (all of `s` when dotless).
pub fn last_segment(s: &str) -> (r: String)
    ensures
        r@ == local_name(s@),
{
    let n = s.unicode_len();
    match rfind_dot(s) {
        Some(i) => {
            let sub = s.substring_char(i + 1, n);
            proof {
                assert(sub@ =~= local_name(s@));
            }
            sub.to_owned()
        },
        None => {
            proof {
                assert(s@ =~= local_name(s@));
            }
            s.to_owned()
        },
    }
}

/// Splits `s` at its last dot into an optional namespace and a local name.
pub fn split_namespace(s: &str) -> (r: (Option<String>, String))
    ensures
        r.1@ == local_name(s@),
        match r.0 {
            Some(ns) => namespace_of(s@) matches Some(v) && ns@ == v,
            None => namespace_of(s@) is None,
        },
{
    let n = s.unicode_len();
    match rfind_dot(s) {
        Some(i) => {
            let ns = s.substring_char(0, i);
            let local = s.substring_char(i + 1, n);
            proof {
                assert(ns@ =~= s@.take(i as int));
                assert(local@ =~= local_name(s@));
            }
            (Some(ns.to_owned()), local.to_owned())
        },
        None => {
            proof {
                assert(s@ =~= local_name(s@));
            }
            (None, s.to_owned())
        },
    }
}

/// Rewrites every dot of `s` into a double colon.
pub open spec fn dots_to_path(s: Seq<char>) -> Seq<char>
    decreases s.len(),
{
    if s.len() == 0 {
        Seq::empty()
    } else if s.last() == '.' {
        dots_to_path(s.drop_last()) + seq![':', ':']
    } else {
        dots_to_path(s.drop_last()) + seq![s.last()]
    }
}

/// Replaces each dot of `s` with a double colon.
pub fn namespace_to_path(s: &str) -> (r: String)
    ensures
        r@ == dots_to_path(s@),
{
    let n = s.unicode_len();
    let mut out = String::new();
    let mut i: usize = 0;
    while i < n
        invariant
            i <= n,
            n == s@.len(),
            out@ == dots_to_path(s@.take(i as int)),
        decreases n - i,
    {
        if s.get_char(i) == '.' {
            out.append("::");
            proof {
                reveal_strlit("::");
                assert("::"@ =~= seq![':', ':']);
            }
        } else {
            let piece = s.substring_char(i, i + 1);
            out.append(piece);
            proof {
                assert(piece@ =~= seq![s@[i as int]]);
            }
        }
        proof {
            assert(s@.take(i + 1 as int).drop_last() =~= s@.take(i as int));
            assert(s@.take(i + 1 as int).last() == s@[i as int]);
        }
        i = i + 1;
    }
    proof {
        assert(s@.take(n as int) =~= s@);
    }
    out
}

/// The lowercased form of `s`.
pub uninterp spec fn lower_of(s: Seq<char>) -> Seq<char>;

/// Relies on `str::to_lowercase`: the result is a function of the
/// characters alone, and an empty string stays empty.
#[verifier::external_body]
pub(crate) fn lowercase(s: &str) -> (r: String)
    ensures
        r@ == lower_of(s@),
        s@.len() == 0 ==> r@.len() == 0,
{
    s.to_lowercase()
}

/// Whether some attribute pair has key `key` and a present value `value`.
pub open spec fn attr_matches(p: (String, Option<String>), key: Seq<char>, value: Seq<char>) -> bool {
    p.0@ == key && (p.1 matches Some(v) && v@ == value)
}

/// Whether `attrs` holds an attribute with key `key` and value `value`.
pub open spec fn spec_has_attr(
    attrs: Seq<(String, Option<String>)>,
    key: Seq<char>,
    value: Seq<char>,
) -> bool {
    exists|i: int| 0 <= i < attrs.len() && attr_matches(#[trigger] attrs[i], key, value)
}

/// Looks for an attribute pair whose key equals `key` and whose value is
/// present and equals `value`.
pub fn has_attr(attrs: &Vec<(String, Option<String>)>, key: &str, value: &str) -> (r: bool)
    ensures
        r == spec_has_attr(attrs@, key@, value@),
{
    let key_owned: String = key.to_owned();
    let value_owned: String = value.to_owned();
    let mut k: usize = 0;
    while k < attrs.len()
        invariant
            k <= attrs@.len(),
            key_owned@ == key@,
            value_owned@ == value@,
            forall|i: int| 0 <= i < k ==> !attr_matches(#[trigger] attrs@[i], key@, value@),
        decreases attrs@.len() - k,
    {
        let pair = &attrs[k];
        if pair.0 == key_owned {
            match &pair.1 {
                Some(v) => {
                    if *v == value_owned {
                        proof {
                            assert(attr_matches(attrs@[k as int], key@, value@));
                        }
                        return true;
                    }
                },
                None => {},
            }
        }
        proof {
            assert(!attr_matches(attrs@[k as int], key@, value@));
        }
        k = k + 1;
    }
    false
}

} // verus!
