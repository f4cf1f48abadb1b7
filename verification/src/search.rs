//! Substring search over contact names: case-insensitive for ASCII, exact
//! for everything else, with the empty term matching every record.

use vstd::prelude::*;
use vstd::string::StringExecFns;
use vstd::std_specs::iter::IteratorSpec;
use crate::contacts::{Contact, ContactV};

verus! {

broadcast use vstd::string::group_string_axioms;

/// ASCII case folding of one character: uppercase ASCII letters map to
/// their lowercase counterpart, every other character is unchanged.
pub open spec fn fold_char(c: char) -> char {
    if 65 <= c as u32 && c as u32 <= 90 {
        (((c as u32) + 32) as u8) as char
    } else {
        c
    }
}

/// A character sequence with every ASCII uppercase letter lowered.
pub open spec fn fold_chars(s: Seq<char>) -> Seq<char> {
    s.map_values(|c: char| fold_char(c))
}

/// `needle` occurs as a contiguous run in `hay` starting at index `i`.
pub open spec fn match_at(hay: Seq<char>, needle: Seq<char>, i: int) -> bool {
    &&& 0 <= i
    &&& i + needle.len() <= hay.len()
    &&& hay.subrange(i, i + needle.len() as int) == needle
}

/// `needle` occurs somewhere in `hay`. The empty needle occurs in every
/// haystack, at index 0.
pub open spec fn occurs(hay: Seq<char>, needle: Seq<char>) -> bool {
    exists|i: int| match_at(hay, needle, i)
}

/// Case-insensitive containment for ASCII: the folded needle occurs in the
/// folded haystack.
pub open spec fn contains_ci(hay: Seq<char>, needle: Seq<char>) -> bool {
    occurs(fold_chars(hay), fold_chars(needle))
}

/// A record matches a search term when the term is contained,
/// case-insensitively, in its first or last name.
pub open spec fn contact_matches(c: ContactV, term: Seq<char>) -> bool {
    contains_ci(c.first_name, term) || contains_ci(c.last_name, term)
}

/// The record predicate that a search with `term` filters by.
pub open spec fn term_pred(term: Seq<char>) -> spec_fn(ContactV) -> bool {
    |c: ContactV| contact_matches(c, term)
}

/// The characters of `s`, collected into a vector.
fn chars_vec(s: &str) -> (r: Vec<char>)
    ensures
        r@ == s@,
{
    let mut it = s.chars();
    let mut r: Vec<char> = Vec::new();
    loop
        invariant
            it.obeys_prophetic_iter_laws(),
            it.decrease() is Some,
            r@ + it.remaining() == s@,
        decreases it.decrease()->0,
    {
        match it.next() {
            Some(c) => {
                r.push(c);
                proof {
                    assert(r@ + it.remaining() =~= s@);
                }
            },
            None => {
                proof {
                    assert(r@ =~= s@);
                }
                return r;
            },
        }
    }
}

/// ASCII case folding of one character.
fn fold_char_exec(c: char) -> (r: char)
    ensures
        r == fold_char(c),
{
    let code: u32 = c as u32;
    if 65 <= code && code <= 90 {
        ((code + 32) as u8) as char
    } else {
        c
    }
}

/// Fold every character of `v`.
fn fold_vec(v: &Vec<char>) -> (r: Vec<char>)
    ensures
        r@ == fold_chars(v@),
{
    let n = v.len();
    let mut r: Vec<char> = Vec::new();
    let mut i: usize = 0;
    while i < n
        invariant
            n == v@.len(),
            i <= n,
            r@.len() == i,
            forall|j: int| 0 <= j < i ==> r@[j] == fold_char(v@[j]),
        decreases n - i,
    {
        r.push(fold_char_exec(v[i]));
        i = i + 1;
    }
    proof {
        assert(r@ =~= fold_chars(v@));
    }
    r
}

/// Whether `needle` matches `hay` exactly at index `at`.
fn match_here(hay: &Vec<char>, needle: &Vec<char>, at: usize) -> (r: bool)
    requires
        at + needle@.len() <= hay@.len(),
    ensures
        r == match_at(hay@, needle@, at as int),
{
    let hlen = hay.len();
    let n = needle.len();
    let mut j: usize = 0;
    while j < n
        invariant
            hlen == hay@.len(),
            at + n <= hay@.len(),
            n == needle@.len(),
            j <= n,
            forall|k: int| 0 <= k < j ==> hay@[at + k] == needle@[k],
        decreases n - j,
    {
        if hay[at + j] != needle[j] {
            proof {
                assert(hay@.subrange(at as int, at + n)[j as int] != needle@[j as int]);
            }
            return false;
        }
        j = j + 1;
    }
    proof {
        assert(hay@.subrange(at as int, at + n) =~= needle@);
    }
    true
}

/// Whether `needle` occurs anywhere in `hay`.
fn occurs_exec(hay: &Vec<char>, needle: &Vec<char>) -> (r: bool)
    ensures
        r == occurs(hay@, needle@),
{
    let n = needle.len();
    let h = hay.len();
    if n == 0 {
        proof {
            assert(match_at(hay@, needle@, 0)) by {
                assert(hay@.subrange(0, 0) =~= needle@);
            }
        }
        return true;
    }
    if n > h {
        proof {
            assert(forall|i: int| !match_at(hay@, needle@, i));
        }
        return false;
    }
    let mut i: usize = 0;
    while i <= h - n
        invariant
            1 <= n <= h,
            h == hay@.len(),
            n == needle@.len(),
            i <= h - n + 1,
            forall|k: int| 0 <= k < i ==> !match_at(hay@, needle@, k),
        decreases h - n + 1 - i,
    {
        if match_here(hay, needle, i) {
            return true;
        }
        i = i + 1;
    }
    proof {
        assert forall|k: int| !match_at(hay@, needle@, k) by {
            if 0 <= k <= h - n {
                assert(!match_at(hay@, needle@, k));
            }
        }
    }
    false
}

/// Case-insensitive containment on string slices: whether `needle` is a
/// substring of `hay` up to ASCII case.
pub fn contains_ci_str(hay: &str, needle: &str) -> (r: bool)
    ensures
        r == contains_ci(hay@, needle@),
{
    let hc = chars_vec(hay);
    let nc = chars_vec(needle);
    let hf = fold_vec(&hc);
    let nf = fold_vec(&nc);
    occurs_exec(&hf, &nf)
}

/// Whether a record matches a search term on its first or last name.
pub fn matches_contact(c: &Contact, term: &str) -> (r: bool)
    ensures
        r == contact_matches(c@, term@),
{
    if contains_ci_str(c.first_name.as_str(), term) {
        return true;
    }
    contains_ci_str(c.last_name.as_str(), term)
}

/// The pattern that brackets a search term in wildcard markers, as the
/// storage layer binds it for substring matching.
pub fn make_like_pattern(term: &str) -> (r: String)
    ensures
        r@ == seq!['%'] + term@ + seq!['%'],
{
    let mut r = String::from_str("%");
    r.append(term);
    r.append("%");
    proof {
        reveal_strlit("%");
        assert(r@ =~= seq!['%'] + term@ + seq!['%']);
    }
    r
}

} // verus!
