//! Character-level text helpers shared by the argument builders and parsers.
//!
//! Strings are reasoned about through their views, sequences of `char`.
use vstd::prelude::*;

verus! {

broadcast use vstd::string::group_string_axioms;

/// The characters of a string slice, in order.
pub fn chars_of(s: &str) -> (v: Vec<char>)
    ensures
        v@ == s@,
{
    let mut v: Vec<char> = Vec::new();
    for c in it: s.chars()
        invariant
            v@ == it.seq().take(it.index() as int),
    {
        v.push(c);
    }
    v
}

/// `String::push`: appends one character.
#[verifier::external_body]
pub(crate) fn push_char(s: &mut String, c: char)
    ensures
        final(s)@ == old(s)@.push(c),
{
    s.push(c);
}

/// Whether a UTF-16 code unit is a surrogate.
pub open spec fn is_surrogate(u: u16) -> bool {
    0xD800 <= u <= 0xDFFF
}

/// UTF-16 decoding with each unpaired surrogate replaced by U+FFFD, as
/// `String::from_utf16_lossy` does: a unit outside the surrogate range is the
/// character with its value, a high surrogate followed by a low one is the character
/// they encode, and any other surrogate is U+FFFD.
pub open spec fn utf16_lossy(units: Seq<u16>) -> Seq<char>
    decreases units.len(),
{
    if units.len() == 0 {
        Seq::<char>::empty()
    } else if !is_surrogate(units[0]) {
        seq![units[0] as char] + utf16_lossy(units.drop_first())
    } else if units[0] <= 0xDBFF && units.len() >= 2 && 0xDC00 <= units[1] <= 0xDFFF {
        seq![
            ((0x10000 + (units[0] - 0xD800) * 0x400 + (units[1] - 0xDC00)) as u32) as char,
        ] + utf16_lossy(units.subrange(2, units.len() as int))
    } else {
        seq!['\u{FFFD}'] + utf16_lossy(units.drop_first())
    }
}

/// Without surrogates every unit is the character with its value.
pub proof fn lemma_utf16_lossy_without_surrogates(units: Seq<u16>)
    requires
        forall|i: int| 0 <= i < units.len() ==> !is_surrogate(#[trigger] units[i]),
    ensures
        utf16_lossy(units) == units.map_values(|u: u16| u as char),
    decreases units.len(),
{
    if units.len() > 0 {
        let rest = units.drop_first();
        assert forall|i: int| 0 <= i < rest.len() implies !is_surrogate(#[trigger] rest[i]) by {
            assert(rest[i] == units[i + 1]);
        }
        lemma_utf16_lossy_without_surrogates(rest);
        assert(utf16_lossy(units) =~= units.map_values(|u: u16| u as char));
    }
}

/// `String::from_utf16_lossy`: the text of the code units, decoded as UTF-16 with
/// unpaired surrogates replaced by U+FFFD.
#[verifier::external_body]
pub(crate) fn string_from_utf16_lossy(units: &[u16]) -> (r: String)
    ensures
        r@ == utf16_lossy(units@),
{
    String::from_utf16_lossy(units)
}

/// Appends a string slice.
pub fn push_str(s: &mut String, t: &str)
    ensures
        final(s)@ == old(s)@ + t@,
{
    s.append(t);
}

/// Appends every character of `v`.
pub fn push_chars(s: &mut String, v: &Vec<char>)
    ensures
        final(s)@ == old(s)@ + v@,
{
    let mut i: usize = 0;
    while i < v.len()
        invariant
            0 <= i <= v@.len(),
            s@ == old(s)@ + v@.take(i as int),
        decreases v@.len() - i,
    {
        push_char(s, v[i]);
        i = i + 1;
        assert(v@.take(i as int) == v@.take(i - 1).push(v@[i - 1]));
    }
    assert(v@.take(v@.len() as int) == v@);
}

/// A new string holding exactly the characters of `v`.
pub fn string_from_chars(v: &Vec<char>) -> (s: String)
    ensures
        s@ == v@,
{
    let mut s = String::new();
    push_chars(&mut s, v);
    s
}

/// A new owned copy of a string slice.
pub fn owned(t: &str) -> (s: String)
    ensures
        s@ == t@,
{
    let mut s = String::new();
    s.append(t);
    s
}

/// Whether two character sequences are equal.
pub fn chars_eq(a: &Vec<char>, b: &Vec<char>) -> (r: bool)
    ensures
        r == (a@ == b@),
{
    if a.len() != b.len() {
        return false;
    }
    let mut i: usize = 0;
    while i < a.len()
        invariant
            a@.len() == b@.len(),
            0 <= i <= a@.len(),
            forall|j: int| 0 <= j < i ==> a@[j] == b@[j],
        decreases a@.len() - i,
    {
        if a[i] != b[i] {
            return false;
        }
        i = i + 1;
    }
    assert(a@ =~= b@);
    true
}

/// Whether two strings are equal.
pub fn str_eq(a: &str, b: &str) -> (r: bool)
    ensures
        r == (a@ == b@),
{
    let va = chars_of(a);
    let vb = chars_of(b);
    chars_eq(&va, &vb)
}

/// The decimal digit character for `d < 10`.
pub open spec fn digit_char(d: nat) -> char {
    if d == 0 { '0' }
    else if d == 1 { '1' }
    else if d == 2 { '2' }
    else if d == 3 { '3' }
    else if d == 4 { '4' }
    else if d == 5 { '5' }
    else if d == 6 { '6' }
    else if d == 7 { '7' }
    else if d == 8 { '8' }
    else { '9' }
}

/// The decimal representation of a natural number, without leading zeros.
pub open spec fn decimal(n: nat) -> Seq<char>
    decreases n,
{
    if n < 10 {
        seq![digit_char(n)]
    } else {
        decimal(n / 10).push(digit_char(n % 10))
    }
}

fn digit(d: u64) -> (c: char)
    requires
        d < 10,
    ensures
        c == digit_char(d as nat),
{
    match d {
        0 => '0',
        1 => '1',
        2 => '2',
        3 => '3',
        4 => '4',
        5 => '5',
        6 => '6',
        7 => '7',
        8 => '8',
        _ => '9',
    }
}

fn decimal_chars(n: u64) -> (v: Vec<char>)
    ensures
        v@ == decimal(n as nat),
    decreases n,
{
    if n < 10 {
        let mut v: Vec<char> = Vec::new();
        v.push(digit(n));
        v
    } else {
        let mut v = decimal_chars(n / 10);
        v.push(digit(n % 10));
        v
    }
}

/// Appends the decimal representation of `n`.
pub fn push_decimal(s: &mut String, n: u64)
    ensures
        final(s)@ == old(s)@ + decimal(n as nat),
{
    let v = decimal_chars(n);
    push_chars(s, &v);
}

/// The decimal representation of `n` as a new string.
pub fn decimal_string(n: u64) -> (s: String)
    ensures
        s@ == decimal(n as nat),
{
    let mut s = String::new();
    push_decimal(&mut s, n);
    s
}

/// Unicode `White_Space`, the set that `char::is_whitespace` and `str::trim` use.
pub open spec fn is_white_space(c: char) -> bool {
    ||| c == '\t'
    ||| c == '\n'
    ||| c == '\x0B'
    ||| c == '\x0C'
    ||| c == '\r'
    ||| c == ' '
    ||| c == '\u{85}'
    ||| c == '\u{A0}'
    ||| c == '\u{1680}'
    ||| ('\u{2000}' as int <= c as int && c as int <= '\u{200A}' as int)
    ||| c == '\u{2028}'
    ||| c == '\u{2029}'
    ||| c == '\u{202F}'
    ||| c == '\u{205F}'
    ||| c == '\u{3000}'
}

/// Whether `c` is Unicode white space.
pub fn white_space(c: char) -> (r: bool)
    ensures
        r == is_white_space(c),
{
    c == '\t' || c == '\n' || c == '\x0B' || c == '\x0C' || c == '\r' || c == ' ' || c == '\u{85}'
        || c == '\u{A0}' || c == '\u{1680}' || ('\u{2000}' <= c && c <= '\u{200A}') || c
        == '\u{2028}' || c == '\u{2029}' || c == '\u{202F}' || c == '\u{205F}' || c == '\u{3000}'
}

/// `s` without its leading and trailing white space, as `str::trim` returns it.
pub open spec fn trim(s: Seq<char>) -> Seq<char>
    decreases s.len(),
{
    if s.len() > 0 && is_white_space(s[0]) {
        trim(s.drop_first())
    } else if s.len() > 0 && is_white_space(s.last()) {
        trim(s.drop_last())
    } else {
        s
    }
}

} // verus!

verus! {

/// Appends the characters `v[from..to]`.
pub fn push_range(s: &mut String, v: &Vec<char>, from: usize, to: usize)
    requires
        from <= to <= v@.len(),
    ensures
        final(s)@ == old(s)@ + v@.subrange(from as int, to as int),
{
    let mut i: usize = from;
    while i < to
        invariant
            from <= i <= to <= v@.len(),
            s@ == old(s)@ + v@.subrange(from as int, i as int),
        decreases to - i,
    {
        push_char(s, v[i]);
        i = i + 1;
        assert(v@.subrange(from as int, i as int) == v@.subrange(from as int, i - 1).push(
            v@[i - 1],
        ));
    }
}

/// `trim` of a sequence whose white-space margins are `[0, lo)` and `[hi, len)`.
pub proof fn lemma_trim_bounds(t: Seq<char>, lo: int, hi: int)
    requires
        0 <= lo <= hi <= t.len(),
        forall|i: int| 0 <= i < lo ==> is_white_space(#[trigger] t[i]),
        forall|i: int| hi <= i < t.len() ==> is_white_space(#[trigger] t[i]),
        lo < hi ==> !is_white_space(t[lo]) && !is_white_space(t[hi - 1]),
    ensures
        trim(t) == t.subrange(lo, hi),
    decreases t.len(),
{
    if t.len() > 0 && is_white_space(t[0]) {
        let d = t.drop_first();
        if lo == 0 {
            assert(hi == 0);
            lemma_trim_bounds(d, 0, 0);
        } else {
            lemma_trim_bounds(d, lo - 1, hi - 1);
            assert(d.subrange(lo - 1, hi - 1) =~= t.subrange(lo, hi));
        }
    } else if t.len() > 0 && is_white_space(t.last()) {
        let d = t.drop_last();
        assert(hi < t.len());
        lemma_trim_bounds(d, lo, hi);
        assert(d.subrange(lo, hi) =~= t.subrange(lo, hi));
    } else {
        if t.len() > 0 {
            assert(lo == 0);
            assert(hi == t.len());
        }
        assert(t.subrange(lo, hi) =~= t);
    }
}

/// The bounds `(lo, hi)` of `trim(v[from..to])` within `v`.
pub fn trim_range(v: &Vec<char>, from: usize, to: usize) -> (r: (usize, usize))
    requires
        from <= to <= v@.len(),
    ensures
        from <= r.0 <= r.1 <= to,
        trim(v@.subrange(from as int, to as int)) == v@.subrange(r.0 as int, r.1 as int),
{
    let mut lo = from;
    while lo < to && white_space(v[lo])
        invariant
            from <= lo <= to <= v@.len(),
            forall|i: int| from <= i < lo ==> is_white_space(#[trigger] v@[i]),
        decreases to - lo,
    {
        lo = lo + 1;
    }
    let mut hi = to;
    while hi > lo && white_space(v[hi - 1])
        invariant
            from <= lo <= hi <= to <= v@.len(),
            forall|i: int| hi <= i < to ==> is_white_space(#[trigger] v@[i]),
        decreases hi - lo,
    {
        hi = hi - 1;
    }
    proof {
        let t = v@.subrange(from as int, to as int);
        assert forall|i: int| 0 <= i < lo - from implies is_white_space(#[trigger] t[i]) by {
            assert(t[i] == v@[from + i]);
        }
        assert forall|i: int| hi - from <= i < t.len() implies is_white_space(#[trigger] t[i]) by {
            assert(t[i] == v@[from + i]);
        }
        lemma_trim_bounds(t, lo - from, hi - from);
        assert(t.subrange(lo - from, hi - from) =~= v@.subrange(lo as int, hi as int));
    }
    (lo, hi)
}

/// Whether `v[from..to]` equals `w`.
pub fn range_eq(v: &Vec<char>, from: usize, to: usize, w: &Vec<char>) -> (r: bool)
    requires
        from <= to <= v@.len(),
    ensures
        r == (v@.subrange(from as int, to as int) == w@),
{
    if to - from != w.len() {
        return false;
    }
    let mut i: usize = 0;
    while i < w.len()
        invariant
            to - from == w@.len(),
            from <= to <= v@.len(),
            0 <= i <= w@.len(),
            forall|j: int| 0 <= j < i ==> v@[from + j] == w@[j],
        decreases w@.len() - i,
    {
        if v[from + i] != w[i] {
            assert(v@.subrange(from as int, to as int)[i as int] != w@[i as int]);
            return false;
        }
        i = i + 1;
    }
    assert(v@.subrange(from as int, to as int) =~= w@);
    true
}

} // verus!

verus! {

/// The lines of a text: the pieces between `'\n'` characters. A final empty piece after
/// a trailing newline is kept; the `'\r'` that `str::lines` strips before a newline is
/// white space. Both differences vanish wherever lines are trimmed or split at white
/// space, which is how every caller reads them.
pub open spec fn lines(s: Seq<char>) -> Seq<Seq<char>>
    decreases s.len(),
{
    if s.len() == 0 {
        seq![seq![]]
    } else {
        let rest = lines(s.drop_last());
        if s.last() == '\n' {
            rest.push(seq![])
        } else {
            rest.update(rest.len() - 1, rest.last().push(s.last()))
        }
    }
}

/// The length of the run of non-white-space characters at the start of `l`.
pub open spec fn run_len(l: Seq<char>) -> nat
    decreases l.len(),
{
    if l.len() == 0 || is_white_space(l[0]) {
        0
    } else {
        1 + run_len(l.drop_first())
    }
}

/// The white-space separated words of `l`, as `str::split_whitespace` yields them.
pub open spec fn words(l: Seq<char>) -> Seq<Seq<char>>
    decreases l.len(),
{
    if l.len() == 0 {
        seq![]
    } else if is_white_space(l[0]) {
        words(l.drop_first())
    } else {
        let n = run_len(l);
        if 0 < n <= l.len() {
            seq![l.take(n as int)] + words(l.skip(n as int))
        } else {
            seq![]
        }
    }
}

pub proof fn lemma_run_len(l: Seq<char>)
    ensures
        run_len(l) <= l.len(),
        forall|i: int| 0 <= i < run_len(l) ==> !is_white_space(#[trigger] l[i]),
        run_len(l) < l.len() ==> is_white_space(l[run_len(l) as int]),
    decreases l.len(),
{
    if l.len() > 0 && !is_white_space(l[0]) {
        lemma_run_len(l.drop_first());
        assert forall|i: int| 0 <= i < run_len(l) implies !is_white_space(#[trigger] l[i]) by {
            if i > 0 {
                assert(l[i] == l.drop_first()[i - 1]);
            }
        }
    }
}

/// A run of non-white-space characters ending at white space (or the end) has `run_len`
/// equal to its length.
pub proof fn lemma_run_len_exact(l: Seq<char>, n: int)
    requires
        0 <= n <= l.len(),
        forall|i: int| 0 <= i < n ==> !is_white_space(#[trigger] l[i]),
        n < l.len() ==> is_white_space(l[n]),
    ensures
        run_len(l) == n,
    decreases n,
{
    if n > 0 {
        let d = l.drop_first();
        assert forall|i: int| 0 <= i < n - 1 implies !is_white_space(#[trigger] d[i]) by {
            assert(d[i] == l[i + 1]);
        }
        if n - 1 < d.len() {
            assert(d[n - 1] == l[n]);
        }
        lemma_run_len_exact(d, n - 1);
    }
}

/// Leading white space does not change the words.
pub proof fn lemma_words_skip_space(l: Seq<char>, k: int)
    requires
        0 <= k <= l.len(),
        forall|i: int| 0 <= i < k ==> is_white_space(#[trigger] l[i]),
    ensures
        words(l) == words(l.skip(k)),
    decreases k,
{
    if k > 0 {
        let d = l.drop_first();
        assert(is_white_space(l[0]));
        assert forall|i: int| 0 <= i < k - 1 implies is_white_space(#[trigger] d[i]) by {
            assert(d[i] == l[i + 1]);
        }
        lemma_words_skip_space(d, k - 1);
        assert(d.skip(k - 1) =~= l.skip(k));
    } else {
        assert(l.skip(0) =~= l);
    }
}

proof fn lemma_words_range_skip(v: Seq<char>, from: int, s: int, to: int)
    requires
        0 <= from <= s <= to <= v.len(),
        forall|i: int| from <= i < s ==> is_white_space(#[trigger] v[i]),
    ensures
        words(v.subrange(from, to)) == words(v.subrange(s, to)),
{
    let t = v.subrange(from, to);
    assert forall|i: int| 0 <= i < s - from implies is_white_space(#[trigger] t[i]) by {
        assert(t[i] == v[from + i]);
    }
    lemma_words_skip_space(t, s - from);
    assert(t.skip(s - from) =~= v.subrange(s, to));
}

proof fn lemma_words_range_first(v: Seq<char>, s: int, e: int, to: int)
    requires
        0 <= s < e <= to <= v.len(),
        forall|i: int| s <= i < e ==> !is_white_space(#[trigger] v[i]),
        e < to ==> is_white_space(v[e]),
    ensures
        words(v.subrange(s, to)) == seq![v.subrange(s, e)] + words(v.subrange(e, to)),
{
    let u = v.subrange(s, to);
    assert forall|i: int| 0 <= i < e - s implies !is_white_space(#[trigger] u[i]) by {
        assert(u[i] == v[s + i]);
    }
    if e < to {
        assert(u[e - s] == v[e]);
    }
    lemma_words_first(u, e - s);
    assert(u.take(e - s) =~= v.subrange(s, e));
    assert(u.skip(e - s) =~= v.subrange(e, to));
}

/// A word at the start of `l`, ending at white space or at the end of `l`.
pub proof fn lemma_words_first(l: Seq<char>, n: int)
    requires
        0 < n <= l.len(),
        forall|i: int| 0 <= i < n ==> !is_white_space(#[trigger] l[i]),
        n < l.len() ==> is_white_space(l[n]),
    ensures
        words(l) == seq![l.take(n)] + words(l.skip(n)),
{
    lemma_run_len_exact(l, n);
}

/// The bounds `[start, end)` of the first word of `v[from..to]`, if there is one.
pub fn next_word(v: &Vec<char>, from: usize, to: usize) -> (r: Option<(usize, usize)>)
    requires
        from <= to <= v@.len(),
    ensures
        r is None ==> words(v@.subrange(from as int, to as int)) == Seq::<Seq<char>>::empty(),
        r matches Some((s, e)) ==> from <= s < e <= to && words(
            v@.subrange(from as int, to as int),
        ) == seq![v@.subrange(s as int, e as int)] + words(v@.subrange(e as int, to as int)),
{
    let mut s = from;
    while s < to && white_space(v[s])
        invariant
            from <= s <= to <= v@.len(),
            forall|i: int| from <= i < s ==> is_white_space(#[trigger] v@[i]),
        decreases to - s,
    {
        s = s + 1;
    }
    proof {
        lemma_words_range_skip(v@, from as int, s as int, to as int);
    }
    if s == to {
        assert(v@.subrange(s as int, to as int).len() == 0);
        return None;
    }
    let mut e = s;
    while e < to && !white_space(v[e])
        invariant
            s <= e <= to <= v@.len(),
            forall|i: int| s <= i < e ==> !is_white_space(#[trigger] v@[i]),
        decreases to - e,
    {
        e = e + 1;
    }
    proof {
        lemma_words_range_first(v@, s as int, e as int, to as int);
    }
    Some((s, e))
}

/// The bounds of the lines of `v`, as `(start, end)` pairs, in order.
pub fn line_bounds(v: &Vec<char>) -> (r: Vec<(usize, usize)>)
    ensures
        r@.len() == lines(v@).len(),
        forall|k: int|
            0 <= k < r@.len() ==> {
                &&& (#[trigger] r@[k]).0 <= r@[k].1 <= v@.len()
                &&& lines(v@)[k] == v@.subrange(r@[k].0 as int, r@[k].1 as int)
            },
{
    let mut r: Vec<(usize, usize)> = Vec::new();
    let mut start: usize = 0;
    let mut i: usize = 0;
    while i < v.len()
        invariant
            0 <= start <= i <= v@.len(),
            r@.len() + 1 == lines(v@.take(i as int)).len(),
            forall|k: int|
                0 <= k < r@.len() ==> {
                    &&& (#[trigger] r@[k]).0 <= r@[k].1 <= i
                    &&& lines(v@.take(i as int))[k] == v@.subrange(r@[k].0 as int, r@[k].1 as int)
                },
            lines(v@.take(i as int)).last() == v@.subrange(start as int, i as int),
        decreases v@.len() - i,
    {
        let ghost before = lines(v@.take(i as int));
        assert(v@.take(i + 1).drop_last() =~= v@.take(i as int));
        assert(v@.take(i + 1).last() == v@[i as int]);
        if v[i] == '\n' {
            r.push((start, i));
            start = i + 1;
            assert(v@.subrange(start as int, (i + 1) as int) =~= Seq::<char>::empty());
        } else {
            assert(v@.subrange(start as int, (i + 1) as int) =~= v@.subrange(
                start as int,
                i as int,
            ).push(v@[i as int]));
        }
        i = i + 1;
    }
    r.push((start, i));
    assert(v@.take(v@.len() as int) =~= v@);
    r
}

} // verus!

verus! {

/// The decimal representation of an integer, with a leading `-` when negative.
pub open spec fn signed_decimal(n: int) -> Seq<char> {
    if n < 0 {
        seq!['-'] + decimal((-n) as nat)
    } else {
        decimal(n as nat)
    }
}

/// Appends the decimal representation of a signed integer.
pub fn push_signed_decimal(s: &mut String, n: i64)
    ensures
        final(s)@ == old(s)@ + signed_decimal(n as int),
{
    if n < 0 {
        push_char(s, '-');
        let m: u64 = if n == i64::MIN {
            0x8000_0000_0000_0000u64
        } else {
            (-n) as u64
        };
        push_decimal(s, m);
    } else {
        push_decimal(s, n as u64);
    }
}

} // verus!
