//! Text as a sequence of characters: the few operations the relay needs on it.
//!
//! Every operation is specified over `Seq<char>`, the view of `str` and `String`, and
//! is carried out on a `Vec<char>`.

use vstd::prelude::*;

verus! {

/// `String::push` appends one character to the end of the string.
pub assume_specification[ String::push ](s: &mut String, c: char)
    ensures
        final(s)@ == old(s)@.push(c),
;

/// `p` stands at the start of `s`.
pub open spec fn starts_with(s: Seq<char>, p: Seq<char>) -> bool {
    p.len() <= s.len() && s.take(p.len() as int) == p
}

/// `p` stands at the end of `s`.
pub open spec fn ends_with(s: Seq<char>, p: Seq<char>) -> bool {
    p.len() <= s.len() && s.skip(s.len() - p.len()) == p
}

/// `s` without every copy of `pat` that stands at its end, one after the other.
/// An empty `pat` removes nothing.
pub open spec fn trim_end(s: Seq<char>, pat: Seq<char>) -> Seq<char>
    decreases s.len(),
{
    if pat.len() > 0 && ends_with(s, pat) {
        trim_end(s.take(s.len() - pat.len()), pat)
    } else {
        s
    }
}

/// `s` with every occurrence of `from` replaced by `to`, the occurrences taken from
/// the left and never overlapping. An empty `from` replaces nothing.
pub open spec fn replace_all(s: Seq<char>, from: Seq<char>, to: Seq<char>) -> Seq<char>
    decreases s.len(),
{
    if from.len() == 0 || s.len() == 0 {
        s
    } else if starts_with(s, from) {
        to + replace_all(s.skip(from.len() as int), from, to)
    } else {
        seq![s[0]] + replace_all(s.skip(1), from, to)
    }
}

/// The longest prefix of `s` that holds no `/`.
pub open spec fn before_slash(s: Seq<char>) -> Seq<char>
    decreases s.len(),
{
    if s.len() == 0 || s[0] == '/' {
        Seq::empty()
    } else {
        seq![s[0]] + before_slash(s.skip(1))
    }
}

/// The longest suffix of `s` that holds no `/`.
pub open spec fn after_slash(s: Seq<char>) -> Seq<char>
    decreases s.len(),
{
    if s.len() == 0 || s.last() == '/' {
        Seq::empty()
    } else {
        after_slash(s.drop_last()).push(s.last())
    }
}

/// What follows the last `/` of `s`, where `s` holds a `/` and does not end in one.
pub open spec fn final_segment(s: Seq<char>) -> Option<Seq<char>> {
    let t = after_slash(s);
    if t.len() == 0 || t.len() == s.len() {
        None
    } else {
        Some(t)
    }
}

/// What stands between the `/` that opens `path` and the next `/` (or the end), where
/// `path` opens with a `/`.
pub open spec fn leading_segment(path: Seq<char>) -> Option<Seq<char>> {
    if path.len() > 0 && path[0] == '/' {
        Some(before_slash(path.skip(1)))
    } else {
        None
    }
}

/// The suffix that `after_slash` gives holds no `/`, is a suffix of `s`, and cannot be
/// made longer.
pub proof fn lemma_after_slash(s: Seq<char>)
    ensures
        after_slash(s).len() <= s.len(),
        after_slash(s) == s.skip(s.len() - after_slash(s).len()),
        !after_slash(s).contains('/'),
        after_slash(s).len() < s.len() ==> s[s.len() - after_slash(s).len() - 1] == '/',
    decreases s.len(),
{
    if s.len() == 0 || s.last() == '/' {
        assert(after_slash(s) =~= s.skip(s.len() as int));
    } else {
        let rest = s.drop_last();
        lemma_after_slash(rest);
        let t = after_slash(rest);
        assert(after_slash(s) =~= s.skip(s.len() - t.len() - 1));
        assert forall|i: int| 0 <= i < after_slash(s).len() implies after_slash(s)[i] != '/' by {
            if i < t.len() {
                assert(t.contains(t[i]));
            }
        }
    }
}

/// The prefix that `before_slash` gives holds no `/`, is a prefix of `s`, and cannot be
/// made longer.
pub proof fn lemma_before_slash(s: Seq<char>)
    ensures
        before_slash(s).len() <= s.len(),
        before_slash(s) == s.take(before_slash(s).len() as int),
        !before_slash(s).contains('/'),
        before_slash(s).len() < s.len() ==> s[before_slash(s).len() as int] == '/',
    decreases s.len(),
{
    if s.len() == 0 || s[0] == '/' {
        assert(before_slash(s) =~= s.take(0));
    } else {
        let rest = s.skip(1);
        lemma_before_slash(rest);
        let t = before_slash(rest);
        assert(before_slash(s) =~= s.take(t.len() as int + 1));
        assert forall|i: int| 0 <= i < before_slash(s).len() implies before_slash(s)[i] != '/' by {
            if i > 0 {
                assert(t.contains(t[i - 1]));
            }
        }
    }
}

/// The characters of `s`, in order.
pub fn chars_of(s: &str) -> (r: Vec<char>)
    ensures
        r@ == s@,
{
    let mut r: Vec<char> = Vec::new();
    for c in it: s.chars()
        invariant
            r@ == it.seq().take(it.index()),
    {
        r.push(c);
    }
    r
}

/// The string made of the characters of `v`, in order.
pub fn string_of(v: &Vec<char>) -> (r: String)
    ensures
        r@ == v@,
{
    let mut r = String::new();
    let mut i: usize = 0;
    while i < v.len()
        invariant
            i <= v.len(),
            r@ == v@.take(i as int),
        decreases v.len() - i,
    {
        r.push(v[i]);
        i += 1;
    }
    r
}

/// Whether `p` stands in `s` at index `at`.
fn holds_at(s: &Vec<char>, at: usize, p: &Vec<char>) -> (r: bool)
    requires
        at <= s.len(),
    ensures
        r == starts_with(s@.skip(at as int), p@),
{
    if p.len() > s.len() - at {
        return false;
    }
    let mut i: usize = 0;
    while i < p.len()
        invariant
            at + p.len() <= s.len(),
            i <= p.len(),
            forall|j: int| 0 <= j < i ==> s@[at + j] == p@[j],
        decreases p.len() - i,
    {
        if s[at + i] != p[i] {
            proof {
                let cut = s@.skip(at as int).take(p.len() as int);
                assert(cut[i as int] != p@[i as int]);
            }
            return false;
        }
        i += 1;
    }
    assert(s@.skip(at as int).take(p.len() as int) =~= p@);
    true
}

/// Whether two texts hold the same characters.
pub fn same_text(a: &str, b: &str) -> (r: bool)
    ensures
        r == (a@ == b@),
{
    let x = chars_of(a);
    let y = chars_of(b);
    if x.len() != y.len() {
        return false;
    }
    let r = holds_at(&x, 0, &y);
    proof {
        assert(x@.skip(0) =~= x@);
        assert(x@.take(y.len() as int) =~= x@);
    }
    r
}

/// Whether `s` opens with `p`.
pub fn has_prefix(s: &str, p: &str) -> (r: bool)
    ensures
        r == starts_with(s@, p@),
{
    let x = chars_of(s);
    let y = chars_of(p);
    proof {
        assert(x@.skip(0) =~= x@);
    }
    holds_at(&x, 0, &y)
}

/// `a` followed by `b`.
pub fn appended(a: &str, b: &str) -> (r: String)
    ensures
        r@ == a@ + b@,
{
    let mut v = chars_of(a);
    let mut w = chars_of(b);
    v.append(&mut w);
    string_of(&v)
}

/// Removes from the end of `s` every copy of `pat` that stands there.
pub fn trim_end_matches(s: &str, pat: &str) -> (r: String)
    ensures
        r@ == trim_end(s@, pat@),
{
    let mut v = chars_of(s);
    let p = chars_of(pat);
    if p.len() == 0 {
        return string_of(&v);
    }
    loop
        invariant
            p@ == pat@,
            p.len() > 0,
            trim_end(v@, p@) == trim_end(s@, pat@),
        ensures
            v@ == trim_end(s@, pat@),
        decreases v.len(),
    {
        if v.len() < p.len() {
            break;
        }
        let at: usize = v.len() - p.len();
        if !holds_at(&v, at, &p) {
            proof {
                assert(v@.skip(at as int).take(p.len() as int) =~= v@.skip(at as int));
            }
            break;
        }
        proof {
            assert(v@.skip(at as int).take(p.len() as int) =~= v@.skip(at as int));
        }
        v.truncate(at);
    }
    string_of(&v)
}

/// Replaces every occurrence of `from` in `s` by `to`.
pub fn replace(s: &str, from: &str, to: &str) -> (r: String)
    ensures
        r@ == replace_all(s@, from@, to@),
{
    let v = chars_of(s);
    let f = chars_of(from);
    let t = chars_of(to);
    if f.len() == 0 {
        return string_of(&v);
    }
    let mut out: Vec<char> = Vec::new();
    let mut i: usize = 0;
    proof {
        assert(v@.skip(0) =~= v@);
        assert(out@ + replace_all(v@, f@, t@) =~= replace_all(v@, f@, t@));
    }
    while i < v.len()
        invariant
            i <= v.len(),
            f.len() > 0,
            out@ + replace_all(v@.skip(i as int), f@, t@) == replace_all(v@, f@, t@),
        decreases v.len() - i,
    {
        let ghost rest = v@.skip(i as int);
        if holds_at(&v, i, &f) {
            let mut j: usize = 0;
            let ghost before = out@;
            while j < t.len()
                invariant
                    j <= t.len(),
                    out@ == before + t@.take(j as int),
                decreases t.len() - j,
            {
                out.push(t[j]);
                j += 1;
            }
            proof {
                assert(t@.take(t.len() as int) =~= t@);
                assert(rest.skip(f.len() as int) =~= v@.skip(i + f.len()));
                assert(out@ + replace_all(v@.skip(i + f.len()), f@, t@) =~= before + replace_all(
                    rest,
                    f@,
                    t@,
                ));
            }
            i += f.len();
        } else {
            proof {
                assert(rest.skip(1) =~= v@.skip(i + 1));
                assert(out@.push(v@[i as int]) + replace_all(v@.skip(i + 1), f@, t@) =~= out@
                    + replace_all(rest, f@, t@));
            }
            out.push(v[i]);
            i += 1;
        }
    }
    proof {
        assert(v@.skip(v.len() as int).len() == 0);
        assert(out@ + Seq::<char>::empty() =~= out@);
    }
    string_of(&out)
}

/// What follows the last `/` of `s`; `None` where `s` holds no `/` or ends in one.
pub fn last_segment(s: &str) -> (r: Option<&str>)
    ensures
        match r {
            Some(t) => final_segment(s@) == Some(t@),
            None => final_segment(s@) is None,
        },
{
    let v = chars_of(s);
    let mut start: usize = v.len();
    proof {
        assert(v@.take(start as int) =~= v@);
        assert(v@.skip(start as int) =~= Seq::<char>::empty());
    }
    while start > 0 && v[start - 1] != '/'
        invariant
            start <= v.len(),
            after_slash(v@.take(start as int)).len() + (v.len() - start) == after_slash(v@).len(),
            after_slash(v@.take(start as int)).len() == 0 ==> after_slash(v@) == v@.skip(
                start as int,
            ),
        decreases start,
    {
        proof {
            lemma_after_slash_step(v@, start as int);
        }
        start -= 1;
    }
    proof {
        lemma_after_slash_step(v@, start as int);
    }
    if start == 0 || start == v.len() {
        None
    } else {
        Some(s.substring_char(start, v.len()))
    }
}

/// How the suffix without `/` of a prefix of `s` relates to that of `s` itself.
proof fn lemma_after_slash_step(s: Seq<char>, n: int)
    requires
        0 <= n <= s.len(),
    ensures
        after_slash(s.take(n)).len() <= n,
        after_slash(s.take(n)).len() + (s.len() - n) == after_slash(s).len() ==> after_slash(s)
            == s.skip(n - after_slash(s.take(n)).len()),
        n > 0 && s[n - 1] != '/' ==> after_slash(s.take(n)).len() == after_slash(
            s.take(n - 1),
        ).len() + 1,
        n > 0 && s[n - 1] == '/' ==> after_slash(s.take(n)).len() == 0,
        n == 0 ==> after_slash(s.take(n)).len() == 0,
{
    lemma_after_slash(s);
    lemma_after_slash(s.take(n));
    if n > 0 {
        assert(s.take(n).drop_last() =~= s.take(n - 1));
        assert(s.take(n).last() == s[n - 1]);
    }
}

/// The segment that follows the `/` at the start of `path`; `None` where `path` does
/// not open with a `/`.
pub fn first_segment(path: &str) -> (r: Option<&str>)
    ensures
        match r {
            Some(t) => leading_segment(path@) == Some(t@),
            None => leading_segment(path@) is None,
        },
{
    let v = chars_of(path);
    if v.len() == 0 || v[0] != '/' {
        return None;
    }
    let mut end: usize = 1;
    while end < v.len() && v[end] != '/'
        invariant
            1 <= end <= v.len(),
            v@.subrange(1, end as int) + before_slash(v@.skip(end as int)) == before_slash(
                v@.skip(1),
            ),
        decreases v.len() - end,
    {
        proof {
            let rest = v@.skip(end as int);
            assert(rest.skip(1) =~= v@.skip(end + 1));
            assert(v@.subrange(1, end + 1) + before_slash(v@.skip(end + 1)) =~= v@.subrange(
                1,
                end as int,
            ) + before_slash(rest));
        }
        end += 1;
    }
    proof {
        assert(before_slash(v@.skip(end as int)).len() == 0);
        assert(v@.subrange(1, end as int) + Seq::<char>::empty() =~= v@.subrange(1, end as int));
    }
    Some(path.substring_char(1, end))
}

} // verus!
