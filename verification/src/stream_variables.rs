//! Expansion of stream variables in playout item source URIs.
//!
//! Stream variables share the `{{ }}` delimiters with environment templates and are
//! told apart by a namespace prefix: `{{channel:number}}` is the number of the
//! channel being transcoded. Anything that is not a known stream variable is left as
//! written, so an unresolved environment template, a future namespace, and a URI that
//! merely contains braces all pass through unchanged.
use vstd::prelude::*;

use crate::text::{chars_of, push_char, push_chars, push_range, range_eq, trim, trim_range};

verus! {

/// The name of the channel-number stream variable.
pub open spec fn channel_number_name() -> Seq<char> {
    seq!['c', 'h', 'a', 'n', 'n', 'e', 'l', ':', 'n', 'u', 'm', 'b', 'e', 'r']
}

/// Whether `s[i]` and `s[i + 1]` are `a` and `b`.
pub open spec fn pair_at(s: Seq<char>, i: int, a: char, b: char) -> bool {
    0 <= i && i + 1 < s.len() && s[i] == a && s[i + 1] == b
}

/// The first position at or after `from` where the two-character delimiter `ab` starts.
pub open spec fn find_pair(s: Seq<char>, a: char, b: char, from: int) -> Option<int>
    decreases s.len() - from,
{
    if from < 0 || from + 1 >= s.len() {
        None
    } else if pair_at(s, from, a, b) {
        Some(from)
    } else {
        find_pair(s, a, b, from + 1)
    }
}

pub proof fn lemma_find_pair(s: Seq<char>, a: char, b: char, from: int)
    requires
        0 <= from,
    ensures
        match find_pair(s, a, b, from) {
            Some(i) => from <= i && i + 2 <= s.len() && pair_at(s, i, a, b) && forall|j: int|
                from <= j < i ==> !pair_at(s, j, a, b),
            None => forall|j: int| from <= j ==> !pair_at(s, j, a, b),
        },
    decreases s.len() - from,
{
    if from + 1 >= s.len() {
    } else if pair_at(s, from, a, b) {
    } else {
        lemma_find_pair(s, a, b, from + 1);
    }
}

/// The expansion of `s[pos..]`: each `{{ channel:number }}` (white space allowed around
/// the name) becomes `number`; every other `{{` is kept and scanning resumes right
/// after it.
pub open spec fn expand_from(s: Seq<char>, number: Seq<char>, pos: int) -> Seq<char>
    decreases s.len() - pos,
{
    if pos < 0 || pos > s.len() {
        seq![]
    } else {
        match find_pair(s, '{', '{', pos) {
            None => s.subrange(pos, s.len() as int),
            Some(open) => if pos <= open && open + 2 <= s.len() {
                s.subrange(pos, open) + match find_pair(s, '}', '}', open + 2) {
                    Some(close) => if open + 2 <= close && close + 2 <= s.len() && trim(
                        s.subrange(open + 2, close),
                    ) == channel_number_name() {
                        number + expand_from(s, number, close + 2)
                    } else {
                        seq!['{', '{'] + expand_from(s, number, open + 2)
                    },
                    None => seq!['{', '{'] + expand_from(s, number, open + 2),
                }
            } else {
                seq![]
            },
        }
    }
}

/// The expansion of a whole input.
pub open spec fn expand_spec(s: Seq<char>, number: Seq<char>) -> Seq<char> {
    expand_from(s, number, 0)
}

fn find_pair_exec(v: &Vec<char>, a: char, b: char, from: usize) -> (r: Option<usize>)
    requires
        from <= v@.len(),
    ensures
        r matches Some(i) ==> find_pair(v@, a, b, from as int) == Some(i as int),
        r is None ==> find_pair(v@, a, b, from as int) is None,
{
    let mut i = from;
    while i < v.len() && v.len() - i > 1
        invariant
            from <= i <= v@.len(),
            find_pair(v@, a, b, from as int) == find_pair(v@, a, b, i as int),
        decreases v@.len() - i,
    {
        if v[i] == a && v[i + 1] == b {
            return Some(i);
        }
        i = i + 1;
    }
    None
}

/// Expands stream variables in `input`.
///
/// Values are substituted verbatim, with no escaping of any kind: the channel number
/// is operator-authored and trusted to the same degree as the text around it.
pub fn expand(input: &str, channel_number: &str) -> (result: String)
    ensures
        result@ == expand_spec(input@, channel_number@),
{
    let v = chars_of(input);
    let number = chars_of(channel_number);
    let name: Vec<char> = vec!['c', 'h', 'a', 'n', 'n', 'e', 'l', ':', 'n', 'u', 'm', 'b', 'e', 'r'];
    assert(name@ == channel_number_name());
    let mut result = String::new();
    let mut pos: usize = 0;
    loop
        invariant
            pos <= v@.len(),
            v@ == input@,
            number@ == channel_number@,
            name@ == channel_number_name(),
            expand_spec(v@, number@) == result@ + expand_from(v@, number@, pos as int),
        decreases v@.len() - pos,
    {
        proof {
            lemma_find_pair(v@, '{', '{', pos as int);
        }
        match find_pair_exec(&v, '{', '{', pos) {
            None => {
                push_range(&mut result, &v, pos, v.len());
                assert(expand_from(v@, number@, pos as int) == v@.subrange(pos as int, v@.len() as int));
                assert(result@ == expand_spec(v@, number@));
                return result;
            },
            Some(open) => {
                proof {
                    lemma_find_pair(v@, '}', '}', open + 2);
                }
                let ghost prev = result@;
                push_range(&mut result, &v, pos, open);
                match find_pair_exec(&v, '}', '}', open + 2) {
                    Some(close) => {
                        assert(find_pair(v@, '}', '}', open + 2) == Some(close as int));
                        assert(close + 2 <= v.len());
                        let (lo, hi) = trim_range(&v, open + 2, close);
                        if range_eq(&v, lo, hi, &name) {
                            push_chars(&mut result, &number);
                            assert(expand_from(v@, number@, pos as int) == v@.subrange(
                                pos as int,
                                open as int,
                            ) + (number@ + expand_from(v@, number@, close + 2)));
                            pos = close + 2;
                        } else {
                            push_char(&mut result, '{');
                            push_char(&mut result, '{');
                            assert(expand_from(v@, number@, pos as int) == v@.subrange(
                                pos as int,
                                open as int,
                            ) + (seq!['{', '{'] + expand_from(v@, number@, open + 2)));
                            pos = open + 2;
                        }
                    },
                    None => {
                        push_char(&mut result, '{');
                        push_char(&mut result, '{');
                        assert(expand_from(v@, number@, pos as int) == v@.subrange(
                            pos as int,
                            open as int,
                        ) + (seq!['{', '{'] + expand_from(v@, number@, open + 2)));
                        pos = open + 2;
                    },
                }
            },
        }
    }
}

/// A text in which `{{` never occurs is returned unchanged.
pub proof fn lemma_expand_without_variables(s: Seq<char>, number: Seq<char>)
    requires
        forall|i: int| !pair_at(s, i, '{', '{'),
    ensures
        expand_spec(s, number) == s,
{
    lemma_find_pair(s, '{', '{', 0);
    assert(s.subrange(0, s.len() as int) =~= s);
}

/// A channel-number variable starts at `i`: `{{`, then up to the first `}}` after it
/// a name that reads `channel:number` once white space is trimmed.
pub open spec fn variable_at(s: Seq<char>, i: int) -> bool {
    &&& pair_at(s, i, '{', '{')
    &&& find_pair(s, '}', '}', i + 2) matches Some(close)
    &&& trim(s.subrange(i + 2, close)) == channel_number_name()
}

proof fn lemma_expand_from_unchanged(s: Seq<char>, number: Seq<char>, pos: int)
    requires
        0 <= pos <= s.len(),
        forall|i: int| !variable_at(s, i),
    ensures
        expand_from(s, number, pos) == s.subrange(pos, s.len() as int),
    decreases s.len() - pos,
{
    lemma_find_pair(s, '{', '{', pos);
    match find_pair(s, '{', '{', pos) {
        None => {},
        Some(open) => {
            lemma_find_pair(s, '}', '}', open + 2);
            assert(!variable_at(s, open));
            lemma_expand_from_unchanged(s, number, open + 2);
            assert(s.subrange(pos, open) + (seq!['{', '{'] + s.subrange(open + 2, s.len() as int))
                =~= s.subrange(pos, s.len() as int));
        },
    }
}

/// Anything that is not a channel-number variable passes through unchanged: a text
/// without one expands to itself, whatever braces it holds.
pub proof fn lemma_expand_keeps_other_text(s: Seq<char>, number: Seq<char>)
    requires
        forall|i: int| !variable_at(s, i),
    ensures
        expand_spec(s, number) == s,
{
    lemma_expand_from_unchanged(s, number, 0);
    assert(s.subrange(0, s.len() as int) =~= s);
}

/// `{{channel:number}}` between two brace-free texts becomes the number as written.
pub proof fn lemma_expand_substitutes_verbatim(p: Seq<char>, q: Seq<char>, number: Seq<char>)
    requires
        forall|i: int| 0 <= i < p.len() ==> p[i] != '{' && p[i] != '}',
        forall|i: int| 0 <= i < q.len() ==> q[i] != '{' && q[i] != '}',
    ensures
        expand_spec(p + seq!['{', '{'] + channel_number_name() + seq!['}', '}'] + q, number) == p
            + number + q,
{
    let name = channel_number_name();
    let s = p + seq!['{', '{'] + name + seq!['}', '}'] + q;
    let open = p.len() as int;
    let close = open + 2 + name.len();
    assert(s.len() == close + 2 + q.len());
    assert forall|i: int| 0 <= i < open implies !pair_at(s, i, '{', '{') by {
        assert(s[i] == p[i]);
    }
    assert(pair_at(s, open, '{', '{'));
    lemma_find_pair(s, '{', '{', 0);
    assert(find_pair(s, '{', '{', 0) == Some(open));
    assert forall|i: int| open + 2 <= i < close implies !pair_at(s, i, '}', '}') by {
        assert(s[i] == name[i - open - 2]);
    }
    assert(pair_at(s, close, '}', '}'));
    lemma_find_pair(s, '}', '}', open + 2);
    assert(find_pair(s, '}', '}', open + 2) == Some(close));
    assert(s.subrange(open + 2, close) =~= name);
    assert(trim(name) == name);
    let rest = close + 2;
    assert forall|i: int| rest <= i implies !pair_at(s, i, '{', '{') by {
        if pair_at(s, i, '{', '{') {
            assert(s[i] == q[i - rest]);
        }
    }
    lemma_find_pair(s, '{', '{', rest);
    assert(expand_from(s, number, rest) == s.subrange(rest, s.len() as int));
    assert(s.subrange(rest, s.len() as int) =~= q);
    assert(s.subrange(0, open) =~= p);
    assert(expand_from(s, number, 0) == s.subrange(0, open) + (number + expand_from(s, number, rest)));
    assert(expand_spec(s, number) =~= p + number + q);
}

} // verus!
