//! Small verified string helpers used across the runtime.

use vstd::prelude::*;
use vstd::string::*;

verus! {

/// Whether two strings hold the same characters.
pub fn str_eq(a: &str, b: &str) -> (r: bool)
    ensures
        r == (a@ == b@),
{
    let n = a.unicode_len();
    if n != b.unicode_len() {
        return false;
    }
    let mut i: usize = 0;
    while i < n
        invariant
            n == a@.len(),
            n == b@.len(),
            i <= n,
            forall|j: int| 0 <= j < i ==> a@[j] == b@[j],
        decreases n - i,
    {
        if a.get_char(i) != b.get_char(i) {
            return false;
        }
        i = i + 1;
    }
    assert(a@ =~= b@);
    true
}

/// Whether `s` begins with `prefix`.
pub fn starts_with(s: &str, prefix: &str) -> (r: bool)
    ensures
        r == (prefix@.len() <= s@.len() && s@.subrange(0, prefix@.len() as int) == prefix@),
{
    let n = prefix.unicode_len();
    if n > s.unicode_len() {
        return false;
    }
    let mut i: usize = 0;
    while i < n
        invariant
            n == prefix@.len(),
            n <= s@.len(),
            i <= n,
            forall|j: int| 0 <= j < i ==> s@[j] == prefix@[j],
        decreases n - i,
    {
        if s.get_char(i) != prefix.get_char(i) {
            assert(s@.subrange(0, n as int)[i as int] != prefix@[i as int]);
            return false;
        }
        i = i + 1;
    }
    assert(s@.subrange(0, n as int) =~= prefix@);
    true
}

/// Appends one character to a string.
#[verifier::external_body]
pub(crate) fn push_char(s: &mut String, c: char)
    ensures
        final(s)@ == old(s)@.push(c),
{
    s.push(c)
}

/// A string holding exactly the given characters.
pub fn string_from_chars(cs: &Vec<char>) -> (r: String)
    ensures
        r@ == cs@,
{
    let mut r = String::new();
    let mut i: usize = 0;
    while i < cs.len()
        invariant
            i <= cs.len(),
            r@ == cs@.subrange(0, i as int),
        decreases cs.len() - i,
    {
        push_char(&mut r, cs[i]);
        assert(cs@.subrange(0, i + 1) =~= cs@.subrange(0, i as int).push(cs@[i as int]));
        i = i + 1;
    }
    assert(cs@.subrange(0, cs.len() as int) =~= cs@);
    r
}

/// The characters of a string.
pub fn chars_of(s: &str) -> (r: Vec<char>)
    ensures
        r@ == s@,
{
    let n = s.unicode_len();
    let mut r: Vec<char> = Vec::new();
    let mut i: usize = 0;
    while i < n
        invariant
            n == s@.len(),
            i <= n,
            r@ == s@.subrange(0, i as int),
        decreases n - i,
    {
        r.push(s.get_char(i));
        assert(s@.subrange(0, i + 1) =~= s@.subrange(0, i as int).push(s@[i as int]));
        i = i + 1;
    }
    assert(s@.subrange(0, n as int) =~= s@);
    r
}

/// `s` with every occurrence of `from` replaced by `to`, scanning from the left and
/// skipping past each replaced occurrence.
pub open spec fn replace_all(s: Seq<char>, from: Seq<char>, to: Seq<char>) -> Seq<char>
    decreases s.len(),
{
    if from.len() == 0 || s.len() < from.len() {
        s
    } else if s.subrange(0, from.len() as int) == from {
        to + replace_all(s.skip(from.len() as int), from, to)
    } else {
        seq![s[0]] + replace_all(s.drop_first(), from, to)
    }
}

/// Whether `pat` occurs in `s` at position `at`.
fn occurs_at(s: &Vec<char>, pat: &Vec<char>, at: usize) -> (r: bool)
    requires
        at + pat@.len() <= s@.len(),
    ensures
        r == (s@.subrange(at as int, at + pat@.len()) == pat@),
{
    let mut j: usize = 0;
    while j < pat.len()
        invariant
            at + pat.len() <= s.len(),
            j <= pat@.len(),
            forall|k: int| 0 <= k < j ==> s@[at + k] == pat@[k],
        decreases pat.len() - j,
    {
        if s[at + j] != pat[j] {
            assert(s@.subrange(at as int, at + pat@.len())[j as int] != pat@[j as int]);
            return false;
        }
        j = j + 1;
    }
    assert(s@.subrange(at as int, at + pat@.len()) =~= pat@);
    true
}

/// Replaces every occurrence of `from` in `s` by `to`, as `str::replace` does.
pub fn replace_str(s: &str, from: &str, to: &str) -> (r: String)
    requires
        from@.len() > 0,
    ensures
        r@ == replace_all(s@, from@, to@),
{
    let sc = chars_of(s);
    let fc = chars_of(from);
    let n = sc.len();
    let m = fc.len();
    let mut out = String::new();
    let mut i: usize = 0;
    assert(sc@.skip(0) =~= sc@);
    assert(out@ + replace_all(sc@, fc@, to@) =~= replace_all(sc@, fc@, to@));
    while i < n
        invariant
            n == sc@.len(),
            m == fc@.len(),
            sc@ == s@,
            fc@ == from@,
            m > 0,
            i <= n,
            out@ + replace_all(sc@.skip(i as int), fc@, to@) == replace_all(sc@, fc@, to@),
        decreases n - i,
    {
        let ghost rest = sc@.skip(i as int);
        if m <= n - i && occurs_at(&sc, &fc, i) {
            assert(rest.subrange(0, m as int) =~= sc@.subrange(i as int, i + m));
            assert(rest.skip(m as int) =~= sc@.skip(i + m));
            let ghost before = out@;
            out.append(to);
            assert(before + (to@ + replace_all(sc@.skip(i + m), fc@, to@)) =~= out@ + replace_all(
                sc@.skip(i + m),
                fc@,
                to@,
            ));
            i = i + m;
        } else {
            let ghost before = out@;
            push_char(&mut out, sc[i]);
            assert(rest =~= seq![sc@[i as int]] + sc@.skip(i + 1));
            assert(rest.drop_first() =~= sc@.skip(i + 1));
            proof {
                if rest.len() < m {
                    assert(replace_all(sc@.skip(i + 1), fc@, to@) == sc@.skip(i + 1));
                } else {
                    assert(rest.subrange(0, m as int) =~= sc@.subrange(i as int, i + m));
                }
            }
            assert(before + (seq![sc@[i as int]] + replace_all(sc@.skip(i + 1), fc@, to@))
                =~= out@ + replace_all(sc@.skip(i + 1), fc@, to@));
            i = i + 1;
        }
    }
    assert(sc@.skip(n as int) =~= Seq::<char>::empty());
    assert(out@ + Seq::<char>::empty() =~= out@);
    out
}

} // verus!
