//! The header list model used by the translator.
//!
//! Headers are an ordered list of name/value pairs; duplicate names are
//! preserved. Names compare ASCII-case-insensitively. Inserting a header
//! removes every pair of the same name and appends the new pair at the end.

use vstd::prelude::*;
use crate::text::seq_eq_ci;

verus! {

/// One header: a name and a value.
#[derive(Debug, PartialEq, Eq)]
pub struct Header {
    pub name: String,
    pub value: String,
}

impl Clone for Header {
    fn clone(&self) -> (r: Self)
        ensures
            r == *self,
    {
        Header { name: self.name.clone(), value: self.value.clone() }
    }
}

impl View for Header {
    type V = (Seq<char>, Seq<char>);

    open spec fn view(&self) -> (Seq<char>, Seq<char>) {
        (self.name@, self.value@)
    }
}

/// The mathematical contents of a header list: a sequence of name/value
/// character-sequence pairs.
pub open spec fn hv(hs: Seq<Header>) -> Seq<(Seq<char>, Seq<char>)> {
    hs.map_values(|h: Header| h@)
}

/// The list without any pair named `name` (ASCII-case-insensitively).
pub open spec fn remove_hv(hs: Seq<(Seq<char>, Seq<char>)>, name: Seq<char>) -> Seq<
    (Seq<char>, Seq<char>),
> {
    hs.filter(|p: (Seq<char>, Seq<char>)| !seq_eq_ci(p.0, name))
}

/// The list with every pair named `name` removed and `(name, value)`
/// appended at the end.
pub open spec fn insert_hv(
    hs: Seq<(Seq<char>, Seq<char>)>,
    name: Seq<char>,
    value: Seq<char>,
) -> Seq<(Seq<char>, Seq<char>)> {
    remove_hv(hs, name).push((name, value))
}

/// The index of the first pair named `name`, or the length if none is.
pub open spec fn find_hv(hs: Seq<(Seq<char>, Seq<char>)>, name: Seq<char>) -> int
    decreases hs.len(),
{
    if hs.len() == 0 {
        0
    } else if seq_eq_ci(hs[0].0, name) {
        0
    } else {
        1 + find_hv(hs.drop_first(), name)
    }
}

/// Some pair of the list is named `name`.
pub open spec fn has_hv(hs: Seq<(Seq<char>, Seq<char>)>, name: Seq<char>) -> bool {
    find_hv(hs, name) < hs.len()
}

pub proof fn lemma_find_hv(hs: Seq<(Seq<char>, Seq<char>)>, name: Seq<char>)
    ensures
        0 <= find_hv(hs, name) <= hs.len(),
        find_hv(hs, name) < hs.len() ==> seq_eq_ci(hs[find_hv(hs, name)].0, name),
        forall|j: int| 0 <= j < find_hv(hs, name) ==> !seq_eq_ci(hs[j].0, name),
    decreases hs.len(),
{
    if hs.len() > 0 && !seq_eq_ci(hs[0].0, name) {
        lemma_find_hv(hs.drop_first(), name);
        assert forall|j: int| 0 <= j < find_hv(hs, name) implies !seq_eq_ci(hs[j].0, name) by {
            if j > 0 {
                assert(hs.drop_first()[j - 1] == hs[j]);
            }
        }
    }
}

proof fn lemma_find_hv_at(hs: Seq<(Seq<char>, Seq<char>)>, name: Seq<char>, m: int)
    requires
        0 <= m <= hs.len(),
        forall|j: int| 0 <= j < m ==> !seq_eq_ci(hs[j].0, name),
        m < hs.len() ==> seq_eq_ci(hs[m].0, name),
    ensures
        find_hv(hs, name) == m,
{
    lemma_find_hv(hs, name);
    let f = find_hv(hs, name);
    if f < m {
        assert(seq_eq_ci(hs[f].0, name));
        assert(!seq_eq_ci(hs[f].0, name));
    }
    if f > m {
        assert(!seq_eq_ci(hs[m].0, name));
        assert(seq_eq_ci(hs[m].0, name));
    }
}

/// A character that may stand in a header value: horizontal tab, or any
/// character other than an ASCII control character or delete.
pub open spec fn valid_header_value_char(c: char) -> bool {
    c as u32 == 9 || (32 <= c as u32 && c as u32 != 127)
}

/// Text that may stand whole as a header value.
pub open spec fn valid_header_value(s: Seq<char>) -> bool {
    forall|i: int| 0 <= i < s.len() ==> valid_header_value_char(#[trigger] s[i])
}

/// Check that `s` may stand as a header value.
pub fn is_valid_header_value(s: &str) -> (r: bool)
    ensures
        r == valid_header_value(s@),
{
    let n = s.unicode_len();
    let mut i: usize = 0;
    while i < n
        invariant
            i <= n,
            n == s@.len(),
            forall|j: int| 0 <= j < i ==> valid_header_value_char(#[trigger] s@[j]),
        decreases n - i,
    {
        let c = s.get_char(i);
        let u = c as u32;
        if !(u == 9 || (32 <= u && u != 127)) {
            proof {
                assert(!valid_header_value_char(s@[i as int]));
            }
            return false;
        }
        i += 1;
    }
    true
}

/// Remove every header named `name`, returning the remaining list and the
/// value of the first removed header, if any was present.
#[verifier::loop_isolation(false)]
pub fn remove_named(hs: Vec<Header>, name: &str) -> (r: (Vec<Header>, Option<String>))
    ensures
        hv(r.0@) == remove_hv(hv(hs@), name@),
        r.1 is Some <==> has_hv(hv(hs@), name@),
        r.1 matches Some(v) ==> v@ == hv(hs@)[find_hv(hv(hs@), name@)].1,
{
    proof {
        reveal(Seq::filter);
    }
    let ghost orig = hv(hs@);
    let mut kept: Vec<Header> = Vec::new();
    let mut first: Option<String> = None;
    let ghost mut first_at: int = orig.len() as int;
    let n = hs.len();
    let mut i: usize = 0;
    while i < n
        invariant
            i <= n,
            hv(kept@) == orig.take(i as int).filter(
                |p: (Seq<char>, Seq<char>)| !seq_eq_ci(p.0, name@),
            ),
            first is None ==> first_at == orig.len() && (forall|j: int|
                0 <= j < i ==> !seq_eq_ci(orig[j].0, name@)),
            first matches Some(v) ==> 0 <= first_at < i && seq_eq_ci(orig[first_at].0, name@)
                && v@ == orig[first_at].1 && (forall|j: int|
                0 <= j < first_at ==> !seq_eq_ci(orig[j].0, name@)),
        decreases n - i,
    {
        let ghost pre = orig.take(i as int);
        let ghost ext = orig.take(i + 1);
        proof {
            assert(ext.drop_last() =~= pre);
            assert(orig[i as int] == hs@[i as int]@);
            assert(ext.last() == orig[i as int]);
        }
        let h = &hs[i];
        if crate::text::str_eq_ci(h.name.as_str(), name) {
            if first.is_none() {
                first = Some(h.value.clone());
                proof {
                    first_at = i as int;
                }
            }
            proof {
                reveal(Seq::filter);
                let pred = |p: (Seq<char>, Seq<char>)| !seq_eq_ci(p.0, name@);
                assert(seq_eq_ci(ext.last().0, name@));
                assert(!pred(ext.last()));
                assert(ext.filter(pred) == pre.filter(pred));
                assert(hv(kept@) == ext.filter(pred));
            }
        } else {
            kept.push(h.clone());
            proof {
                reveal(Seq::filter);
                let pred = |p: (Seq<char>, Seq<char>)| !seq_eq_ci(p.0, name@);
                assert(!seq_eq_ci(ext.last().0, name@));
                assert(pred(ext.last()));
                assert(hv(kept@) =~= pre.filter(pred).push(orig[i as int]));
                assert(ext.filter(pred) == pre.filter(pred).push(ext.last()));
                assert(hv(kept@) == ext.filter(pred));
            }
        }
        i += 1;
    }
    proof {
        assert(orig.take(n as int) =~= orig);
        if first is Some {
            lemma_find_hv_at(orig, name@, first_at);
        } else {
            lemma_find_hv_at(orig, name@, orig.len() as int);
        }
    }
    (kept, first)
}

/// Insert `(name, value)`: remove every header named `name`, then append
/// the new pair at the end.
pub fn insert_named(hs: Vec<Header>, name: &str, value: String) -> (r: Vec<Header>)
    ensures
        hv(r@) == insert_hv(hv(hs@), name@, value@),
{
    let ghost orig = hv(hs@);
    let ghost vval = value@;
    let (mut kept, _) = remove_named(hs, name);
    let h = Header { name: String::from_str(name), value };
    let ghost hview = h@;
    kept.push(h);
    proof {
        assert(hview == (name@, vval));
        assert(hv(kept@) =~= remove_hv(orig, name@).push((name@, vval)));
    }
    kept
}

/// Filtering with a predicate that holds of every element keeps the
/// sequence as it was.
pub proof fn lemma_filter_keeps_all<A>(s: Seq<A>, pred: spec_fn(A) -> bool)
    requires
        forall|i: int| 0 <= i < s.len() ==> pred(#[trigger] s[i]),
    ensures
        s.filter(pred) == s,
    decreases s.len(),
{
    reveal(Seq::filter);
    if s.len() > 0 {
        assert(forall|i: int| 0 <= i < s.drop_last().len() ==> s.drop_last()[i] == s[i]);
        lemma_filter_keeps_all(s.drop_last(), pred);
        assert(pred(s.last()));
        assert(s.drop_last().push(s.last()) =~= s);
    }
}

} // verus!
