//! Status-code list parsing and membership.
//!
//! A list such as `"500,502-504,422"` names single codes and inclusive
//! ranges, separated by commas; whitespace around each entry is ignored, and
//! an entry that does not parse contributes nothing.

use vstd::prelude::*;
use crate::text::{chars_of, parse_u16_range, parse_u16_spec};

verus! {

/// A character with the Unicode white-space property, as `str::trim` skips.
pub open spec fn is_space(c: char) -> bool {
    ||| c as u32 == 0x09
    ||| c as u32 == 0x0a
    ||| c as u32 == 0x0b
    ||| c as u32 == 0x0c
    ||| c as u32 == 0x0d
    ||| c as u32 == 0x20
    ||| c as u32 == 0x85
    ||| c as u32 == 0xa0
    ||| c as u32 == 0x1680
    ||| 0x2000 <= c as u32 <= 0x200a
    ||| c as u32 == 0x2028
    ||| c as u32 == 0x2029
    ||| c as u32 == 0x202f
    ||| c as u32 == 0x205f
    ||| c as u32 == 0x3000
}

fn is_space_exec(c: char) -> (r: bool)
    ensures
        r == is_space(c),
{
    let u = c as u32;
    u == 0x09 || u == 0x0a || u == 0x0b || u == 0x0c || u == 0x0d || u == 0x20 || u == 0x85
        || u == 0xa0 || u == 0x1680 || (0x2000 <= u && u <= 0x200a) || u == 0x2028 || u == 0x2029
        || u == 0x202f || u == 0x205f || u == 0x3000
}

/// `s` without its leading white space.
pub open spec fn trim_start_spec(s: Seq<char>) -> Seq<char>
    decreases s.len(),
{
    if s.len() > 0 && is_space(s[0]) {
        trim_start_spec(s.drop_first())
    } else {
        s
    }
}

/// `s` without its trailing white space.
pub open spec fn trim_end_spec(s: Seq<char>) -> Seq<char>
    decreases s.len(),
{
    if s.len() > 0 && is_space(s.last()) {
        trim_end_spec(s.drop_last())
    } else {
        s
    }
}

/// `s` without leading and trailing white space.
pub open spec fn trim_spec(s: Seq<char>) -> Seq<char> {
    trim_end_spec(trim_start_spec(s))
}

/// The index of the first occurrence of `c` in `s`, or `s.len()` if absent.
pub open spec fn find_char(s: Seq<char>, c: char) -> int
    decreases s.len(),
{
    if s.len() == 0 {
        0
    } else if s[0] == c {
        0
    } else {
        1 + find_char(s.drop_first(), c)
    }
}

proof fn lemma_find_char(s: Seq<char>, c: char)
    ensures
        0 <= find_char(s, c) <= s.len(),
        find_char(s, c) < s.len() ==> s[find_char(s, c)] == c,
        forall|j: int| 0 <= j < find_char(s, c) ==> s[j] != c,
    decreases s.len(),
{
    if s.len() > 0 && s[0] != c {
        lemma_find_char(s.drop_first(), c);
        assert forall|j: int| 0 <= j < find_char(s, c) implies s[j] != c by {
            if j > 0 {
                assert(s.drop_first()[j - 1] == s[j]);
            }
        }
    }
}

/// If the first `m` characters of `s` differ from `c` and either `m` is the
/// length of `s` or `s[m] == c`, then `m` is where the first `c` stands.
proof fn lemma_find_char_at(s: Seq<char>, c: char, m: int)
    requires
        0 <= m <= s.len(),
        forall|j: int| 0 <= j < m ==> s[j] != c,
        m < s.len() ==> s[m] == c,
    ensures
        find_char(s, c) == m,
{
    lemma_find_char(s, c);
    let f = find_char(s, c);
    if f < m {
        assert(s[f] == c);
        assert(s[f] != c);
    }
    if f > m {
        assert(m < s.len());
        assert(s[m] != c);
        assert(s[m] == c);
    }
}

/// The codes named by an inclusive range, empty when the ends are reversed.
pub open spec fn range_seq(a: u16, b: u16) -> Seq<u16> {
    if a > b {
        Seq::empty()
    } else {
        Seq::new((b - a + 1) as nat, |i: int| (a + i) as u16)
    }
}

/// `u16` parsing as `str::parse` does it: an optional leading `'+'`, then
/// one or more ASCII digits whose value fits.
pub open spec fn parse_u16_str_spec(s: Seq<char>) -> Option<u16> {
    if s.len() > 0 && s[0] == '+' {
        parse_u16_spec(s.drop_first())
    } else {
        parse_u16_spec(s)
    }
}

/// The codes contributed by one comma-separated entry: the entry is trimmed;
/// with no dash it is a single code, with exactly one dash an inclusive
/// range, and anything that fails to parse contributes nothing.
pub open spec fn part_codes(part: Seq<char>) -> Seq<u16> {
    let t = trim_spec(part);
    let k = find_char(t, '-');
    if 0 <= k < t.len() {
        let tail = t.skip(k + 1);
        if find_char(tail, '-') < tail.len() {
            Seq::empty()
        } else {
            match (parse_u16_str_spec(t.take(k)), parse_u16_str_spec(tail)) {
                (Some(a), Some(b)) => range_seq(a, b),
                _ => Seq::empty(),
            }
        }
    } else {
        match parse_u16_str_spec(t) {
            Some(v) => seq![v],
            None => Seq::empty(),
        }
    }
}

/// The codes named by a whole comma-separated list.
pub open spec fn status_codes_spec(s: Seq<char>) -> Seq<u16>
    decreases s.len(),
{
    let k = find_char(s, ',');
    if 0 <= k < s.len() {
        part_codes(s.take(k)) + status_codes_spec(s.skip(k + 1))
    } else {
        part_codes(s)
    }
}

fn parse_u16_str_range(s: &Vec<char>, from: usize, to: usize) -> (r: Option<u16>)
    requires
        from <= to <= s.len(),
    ensures
        r == parse_u16_str_spec(s@.subrange(from as int, to as int)),
{
    let ghost sub = s@.subrange(from as int, to as int);
    if from < to && s[from] == '+' {
        let r = parse_u16_range(s, from + 1, to);
        proof {
            assert(sub.drop_first() =~= s@.subrange(from + 1, to as int));
        }
        r
    } else {
        parse_u16_range(s, from, to)
    }
}

/// Append the codes of the range `a..=b` to `out`.
fn push_range(out: &mut Vec<u16>, a: u16, b: u16)
    ensures
        final(out)@ == old(out)@ + range_seq(a, b),
{
    if a > b {
        proof {
            assert(out@ =~= old(out)@ + range_seq(a, b));
        }
        return ;
    }
    let mut v: u16 = a;
    loop
        invariant_except_break
            out@ == old(out)@ + range_seq(a, b).take(v - a),
        invariant
            a <= v <= b,
        ensures
            out@ == old(out)@ + range_seq(a, b).take(b - a + 1),
        decreases b - v,
    {
        out.push(v);
        proof {
            let r = range_seq(a, b);
            assert(r.take(v - a).push(r[v - a]) =~= r.take(v - a + 1));
            assert((old(out)@ + r.take(v - a)).push(r[v - a]) =~= old(out)@ + r.take(v - a + 1));
        }
        if v == b {
            proof {
                assert(out@ == old(out)@ + range_seq(a, b).take(b - a + 1));
            }
            break ;
        }
        v = v + 1;
    }
    proof {
        assert(range_seq(a, b).take(b - a + 1) =~= range_seq(a, b));
    }
}

/// Append the codes of the entry `s[from..to]` to `out`.
#[verifier::loop_isolation(false)]
fn push_part_codes(out: &mut Vec<u16>, s: &Vec<char>, from: usize, to: usize)
    requires
        from <= to <= s.len(),
    ensures
        final(out)@ == old(out)@ + part_codes(s@.subrange(from as int, to as int)),
{
    let ghost part = s@.subrange(from as int, to as int);
    // trim the entry: advance past leading space, retreat past trailing space
    let mut i: usize = from;
    while i < to && is_space_exec(s[i])
        invariant
            from <= i <= to <= s.len(),
            trim_start_spec(s@.subrange(from as int, to as int)) == trim_start_spec(
                s@.subrange(i as int, to as int),
            ),
        decreases to - i,
    {
        proof {
            let cur = s@.subrange(i as int, to as int);
            assert(cur[0] == s@[i as int]);
            assert(cur.drop_first() =~= s@.subrange(i + 1, to as int));
        }
        i += 1;
    }
    proof {
        let cur = s@.subrange(i as int, to as int);
        if cur.len() > 0 {
            assert(cur[0] == s@[i as int]);
        }
        assert(trim_start_spec(part) == cur);
    }
    let mut j: usize = to;
    while j > i && is_space_exec(s[j - 1])
        invariant
            from <= i <= j <= to <= s.len(),
            trim_end_spec(s@.subrange(i as int, to as int)) == trim_end_spec(
                s@.subrange(i as int, j as int),
            ),
        decreases j,
    {
        proof {
            let cur = s@.subrange(i as int, j as int);
            assert(cur.last() == s@[j - 1]);
            assert(cur.drop_last() =~= s@.subrange(i as int, j - 1));
        }
        j -= 1;
    }
    proof {
        let cur = s@.subrange(i as int, j as int);
        if cur.len() > 0 {
            assert(cur.last() == s@[j - 1]);
        }
        assert(trim_spec(part) == cur);
    }
    let ghost t = s@.subrange(i as int, j as int);
    // find the first dash of the trimmed entry
    let mut k: usize = i;
    while k < j && s[k] != '-'
        invariant
            i <= k <= j <= s.len(),
            forall|m: int| 0 <= m < k - i ==> t[m] != '-',
        decreases j - k,
    {
        proof {
            assert(t[k - i] == s@[k as int]);
        }
        k += 1;
    }
    proof {
        if k < j {
            assert(t[k - i] == s@[k as int]);
        }
        lemma_find_char_at(t, '-', k - i);
    }
    if k == j {
        // no dash: a single code
        match parse_u16_str_range(s, i, j) {
            Some(v) => {
                out.push(v);
                proof {
                    assert(old(out)@.push(v) =~= old(out)@ + part_codes(part));
                }
            },
            None => {
                proof {
                    assert(out@ =~= old(out)@ + part_codes(part));
                }
            },
        }
        return ;
    }
    // a dash is present; reject the entry when a second one follows it
    let ghost tail = t.skip(k + 1 - i);
    proof {
        assert(tail =~= s@.subrange(k + 1, j as int));
    }
    let mut k2: usize = k + 1;
    while k2 < j && s[k2] != '-'
        invariant
            k + 1 <= k2 <= j <= s.len(),
            forall|m: int| 0 <= m < k2 - (k + 1) ==> tail[m] != '-',
        decreases j - k2,
    {
        proof {
            assert(tail[k2 - (k + 1)] == s@[k2 as int]);
        }
        k2 += 1;
    }
    proof {
        if k2 < j {
            assert(tail[k2 - (k + 1)] == s@[k2 as int]);
        }
        lemma_find_char_at(tail, '-', k2 - (k + 1));
    }
    if k2 < j {
        proof {
            assert(out@ =~= old(out)@ + part_codes(part));
        }
        return ;
    }
    proof {
        assert(t.take(k - i) =~= s@.subrange(i as int, k as int));
    }
    let lo = parse_u16_str_range(s, i, k);
    let hi = parse_u16_str_range(s, k + 1, j);
    match (lo, hi) {
        (Some(a), Some(b)) => {
            push_range(out, a, b);
        },
        _ => {
            proof {
                assert(out@ =~= old(out)@ + part_codes(part));
            }
        },
    }
}

#[verifier::loop_isolation(false)]
fn parse_codes_chars(s: &Vec<char>, from: usize, out: &mut Vec<u16>)
    requires
        from <= s.len(),
    ensures
        final(out)@ == old(out)@ + status_codes_spec(s@.skip(from as int)),
    decreases s@.len() - from,
{
    let ghost whole = s@.skip(from as int);
    // find the first comma at or after `from`
    let mut k: usize = from;
    while k < s.len() && s[k] != ','
        invariant
            from <= k <= s.len(),
            forall|m: int| 0 <= m < k - from ==> whole[m] != ',',
        decreases s.len() - k,
    {
        proof {
            assert(whole[k - from] == s@[k as int]);
        }
        k += 1;
    }
    proof {
        if k < s.len() {
            assert(whole[k - from] == s@[k as int]);
        }
        lemma_find_char_at(whole, ',', k - from);
        assert(whole.take(k - from) =~= s@.subrange(from as int, k as int));
    }
    push_part_codes(out, s, from, k);
    if k < s.len() {
        proof {
            assert(whole.skip(k - from + 1) =~= s@.skip(k + 1));
        }
        parse_codes_chars(s, k + 1, out);
    }
}

/// Parse a comma-separated list of status codes and inclusive ranges,
/// such as `"500,502-504,422"`. Whitespace around an entry is ignored;
/// an entry that does not parse contributes no codes.
pub fn parse_status_codes(input: &str) -> (r: Vec<u16>)
    ensures
        r@ == status_codes_spec(input@),
{
    let chars = chars_of(input);
    let mut r: Vec<u16> = Vec::new();
    parse_codes_chars(&chars, 0, &mut r);
    proof {
        assert(chars@.skip(0) =~= input@);
    }
    r
}

/// Is `status` named by the list `codes`?
pub fn status_in_list(codes: &Vec<u16>, status: u16) -> (r: bool)
    ensures
        r == codes@.contains(status),
{
    let mut i: usize = 0;
    while i < codes.len()
        invariant
            i <= codes.len(),
            forall|j: int| 0 <= j < i ==> codes@[j] != status,
        decreases codes.len() - i,
    {
        if codes[i] == status {
            return true;
        }
        i += 1;
    }
    false
}

} // verus!
