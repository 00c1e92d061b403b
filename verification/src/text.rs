//! Decimal rendering of integers and small string helpers.

use vstd::prelude::*;

verus! {

/// `String::push` appends one character at the end of the string.
pub assume_specification[ String::push ](s: &mut String, ch: char)
    ensures
        final(s)@ == old(s)@.push(ch),
;

/// The character of a decimal digit.
pub open spec fn digit_char(d: nat) -> char {
    if d == 0 { '0' }
    else if d == 1 { '1' }
    else if d == 2 { '2' }
    else if d == 3 { '3' }
    else if d == 4 { '4' }
    else if d == 5 { '5' }
    else if d == 6 { '6' }
    else if d == 7 { '7' }
    else if d == 8 { '8' }
    else { '9' }
}

/// The decimal representation of a natural number, without leading zeros.
pub open spec fn decimal(n: nat) -> Seq<char>
    decreases n,
{
    if n < 10 {
        seq![digit_char(n)]
    } else {
        decimal(n / 10).push(digit_char(n % 10))
    }
}

/// The decimal representation of an integer, with a leading `-` when negative.
pub open spec fn signed_decimal(i: int) -> Seq<char> {
    if i < 0 {
        seq!['-'] + decimal((-i) as nat)
    } else {
        decimal(i as nat)
    }
}

fn digit(d: u64) -> (c: char)
    requires
        d < 10,
    ensures
        c == digit_char(d as nat),
{
    if d == 0 { '0' }
    else if d == 1 { '1' }
    else if d == 2 { '2' }
    else if d == 3 { '3' }
    else if d == 4 { '4' }
    else if d == 5 { '5' }
    else if d == 6 { '6' }
    else if d == 7 { '7' }
    else if d == 8 { '8' }
    else { '9' }
}

/// Renders `n` in decimal, as `Display` does for unsigned integers.
pub fn u64_to_string(n: u64) -> (s: String)
    ensures
        s@ == decimal(n as nat),
    decreases n,
{
    if n < 10 {
        let mut s = String::new();
        s.push(digit(n));
        s
    } else {
        let mut s = u64_to_string(n / 10);
        s.push(digit(n % 10));
        s
    }
}

/// Renders `n` in decimal, as `Display` does for signed integers.
pub fn i32_to_string(n: i32) -> (s: String)
    ensures
        s@ == signed_decimal(n as int),
{
    if n < 0 {
        let magnitude: u64 = (0i64 - (n as i64)) as u64;
        let digits = u64_to_string(magnitude);
        let mut s = String::new();
        s.push('-');
        s.append(digits.as_str());
        s
    } else {
        u64_to_string(n as u64)
    }
}

/// `a` followed by `b`, as a new string.
pub fn join2(a: &str, b: &str) -> (s: String)
    ensures
        s@ == a@ + b@,
{
    let mut s = a.to_owned();
    s.append(b);
    s
}

/// `a`, `b` and `c` one after the other, as a new string.
pub fn join3(a: &str, b: &str, c: &str) -> (s: String)
    ensures
        s@ == a@ + b@ + c@,
{
    let mut s = a.to_owned();
    s.append(b);
    s.append(c);
    s
}

/// The characters of `s`, in order.
pub fn chars_of(s: &str) -> (v: Vec<char>)
    ensures
        v@ == s@,
{
    broadcast use vstd::string::group_string_axioms;
    let mut v: Vec<char> = Vec::new();
    for c in it: s.chars()
        invariant
            v@ == it.seq().take(it.index() as int),
    {
        v.push(c);
    }
    v
}

/// `t` with every occurrence of `p` replaced by `w`, occurrences taken from
/// left to right without overlapping.
pub open spec fn replaced(t: Seq<char>, p: Seq<char>, w: Seq<char>) -> Seq<char>
    decreases t.len(),
{
    if t.len() == 0 {
        Seq::empty()
    } else if 0 < p.len() <= t.len() && t.take(p.len() as int) == p {
        w + replaced(t.skip(p.len() as int), p, w)
    } else {
        seq![t[0]] + replaced(t.skip(1), p, w)
    }
}

fn matches_at(text: &Vec<char>, i: usize, pat: &Vec<char>) -> (r: bool)
    requires
        i <= text.len(),
    ensures
        r == (pat.len() <= text.len() - i && text@.skip(i as int).take(pat.len() as int) == pat@),
{
    if pat.len() > text.len() - i {
        return false;
    }
    let mut j: usize = 0;
    while j < pat.len()
        invariant
            pat.len() <= text.len() - i,
            j <= pat.len(),
            forall|k: int| 0 <= k < j ==> text@[i + k] == pat@[k],
        decreases pat.len() - j,
    {
        if text[i + j] != pat[j] {
            assert(text@.skip(i as int).take(pat.len() as int)[j as int] != pat@[j as int]);
            return false;
        }
        j = j + 1;
    }
    assert(text@.skip(i as int).take(pat.len() as int) =~= pat@);
    true
}

/// `s` with every occurrence of `from` replaced by `to`, as `str::replace`
/// does for a non-empty pattern.
pub fn replace_all(s: &str, from: &str, to: &str) -> (r: String)
    requires
        from@.len() > 0,
    ensures
        r@ == replaced(s@, from@, to@),
{
    let text = chars_of(s);
    let pat = chars_of(from);
    let mut out = String::new();
    let mut i: usize = 0;
    assert(text@.skip(0) =~= text@);
    while i < text.len()
        invariant
            i <= text.len(),
            pat@.len() > 0,
            pat@ == from@,
            out@ + replaced(text@.skip(i as int), pat@, to@) == replaced(text@, pat@, to@),
        decreases text.len() - i,
    {
        let ghost rest = text@.skip(i as int);
        if matches_at(&text, i, &pat) {
            assert(rest.skip(pat@.len() as int) =~= text@.skip(i + pat@.len()));
            assert(out@ + (to@ + replaced(rest.skip(pat@.len() as int), pat@, to@))
                =~= (out@ + to@) + replaced(rest.skip(pat@.len() as int), pat@, to@));
            out.append(to);
            i = i + pat.len();
        } else {
            assert(rest.skip(1) =~= text@.skip(i + 1));
            assert(rest[0] == text@[i as int]);
            assert(out@ + (seq![rest[0]] + replaced(rest.skip(1), pat@, to@))
                =~= out@.push(rest[0]) + replaced(rest.skip(1), pat@, to@));
            out.push(text[i]);
            i = i + 1;
        }
    }
    assert(text@.skip(i as int) =~= Seq::<char>::empty());
    assert(out@ + Seq::<char>::empty() =~= out@);
    out
}

/// Replacing in a text whose first part holds no character that starts the
/// pattern leaves that part as it is and replaces in the rest.
pub proof fn replaced_skips_prefix(u: Seq<char>, rest: Seq<char>, p: Seq<char>, w: Seq<char>)
    requires
        p.len() > 0,
        forall|i: int| 0 <= i < u.len() ==> u[i] != p[0],
    ensures
        replaced(u + rest, p, w) == u + replaced(rest, p, w),
    decreases u.len(),
{
    if u.len() > 0 {
        let t = u + rest;
        assert(t[0] == u[0]);
        if p.len() <= t.len() && t.take(p.len() as int) == p {
            assert(t.take(p.len() as int)[0] == t[0]);
        }
        assert(t.skip(1) =~= u.skip(1) + rest);
        replaced_skips_prefix(u.skip(1), rest, p, w);
        assert(seq![u[0]] + (u.skip(1) + replaced(rest, p, w)) =~= u + replaced(rest, p, w));
    } else {
        assert(u + rest =~= rest);
        assert(u + replaced(rest, p, w) =~= replaced(rest, p, w));
    }
}

/// A text that starts with the pattern gets the replacement in its place.
pub proof fn replaced_at_start(p: Seq<char>, v: Seq<char>, w: Seq<char>)
    requires
        p.len() > 0,
    ensures
        replaced(p + v, p, w) == w + replaced(v, p, w),
{
    let t = p + v;
    assert(t.take(p.len() as int) =~= p);
    assert(t.skip(p.len() as int) =~= v);
}

/// A text with no character that starts the pattern is left as it is.
pub proof fn replaced_without_pattern_start(u: Seq<char>, p: Seq<char>, w: Seq<char>)
    requires
        p.len() > 0,
        forall|i: int| 0 <= i < u.len() ==> u[i] != p[0],
    ensures
        replaced(u, p, w) == u,
{
    replaced_skips_prefix(u, Seq::empty(), p, w);
    assert(u + Seq::<char>::empty() =~= u);
}

} // verus!
