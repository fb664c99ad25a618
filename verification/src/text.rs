//! Character-level helpers shared by the parsers and message builders.

use vstd::prelude::*;
use vstd::string::*;

verus! {

/// The characters of a string slice, in order.
pub fn str_chars(s: &str) -> (v: Vec<char>)
    ensures
        v@ == s@,
{
    let n = s.unicode_len();
    let mut v: Vec<char> = Vec::new();
    let mut i: usize = 0;
    while i < n
        invariant
            n == s@.len(),
            i <= n,
            v@ == s@.take(i as int),
        decreases n - i,
    {
        let c = s.get_char(i);
        v.push(c);
        i = i + 1;
        assert(v@ =~= s@.take(i as int));
    }
    assert(s@.take(n as int) =~= s@);
    v
}

/// Appends one character to a string (`String::push`).
#[verifier::external_body]
pub(crate) fn push_char(s: &mut String, c: char)
    ensures
        final(s)@ == old(s)@.push(c),
{
    s.push(c);
}

/// The string made of the characters `v[from..to]`.
pub fn string_of_range(v: &Vec<char>, from: usize, to: usize) -> (r: String)
    requires
        from <= to <= v@.len(),
    ensures
        r@ == v@.subrange(from as int, to as int),
{
    let mut r = String::new();
    let mut i = from;
    while i < to
        invariant
            from <= i <= to <= v@.len(),
            r@ == v@.subrange(from as int, i as int),
        decreases to - i,
    {
        push_char(&mut r, v[i]);
        i = i + 1;
        assert(r@ =~= v@.subrange(from as int, i as int));
    }
    r
}

/// The elements joined by a separator (`[String]::join`).
pub open spec fn join_spec(items: Seq<Seq<char>>, sep: Seq<char>) -> Seq<char>
    decreases items.len(),
{
    if items.len() == 0 {
        Seq::empty()
    } else if items.len() == 1 {
        items[0]
    } else {
        join_spec(items.drop_last(), sep) + sep + items.last()
    }
}

/// Joins strings with a separator.
pub fn join(items: &Vec<String>, sep: &str) -> (r: String)
    ensures
        r@ == join_spec(items@.map_values(|s: String| s@), sep@),
{
    let mut r = String::new();
    let ghost views = items@.map_values(|s: String| s@);
    let mut i: usize = 0;
    while i < items.len()
        invariant
            i <= items@.len(),
            views == items@.map_values(|s: String| s@),
            r@ == join_spec(views.take(i as int), sep@),
        decreases items.len() - i,
    {
        if i != 0 {
            r.append(sep);
        }
        r.append(items[i].as_str());
        assert(views.take(i + 1).drop_last() =~= views.take(i as int));
        i = i + 1;
    }
    assert(views.take(items@.len() as int) =~= views);
    r
}

/// No line break occurs in the characters.
pub open spec fn no_newline(s: Seq<char>) -> bool {
    forall|i: int| 0 <= i < s.len() ==> s[i] != '\n'
}

/// `t` is what `.*` captures in `s` from `start`: every character up to the
/// first line break or the end.
pub open spec fn is_rest_of_line(s: Seq<char>, start: int, t: Seq<char>) -> bool {
    &&& 0 <= start <= s.len()
    &&& start + t.len() <= s.len()
    &&& t == s.subrange(start, start + t.len())
    &&& no_newline(t)
    &&& (start + t.len() == s.len() || s[start + t.len()] == '\n')
}

/// The index of the first line break at or after `k`, or the length.
pub open spec fn line_end_spec(s: Seq<char>, k: int) -> int
    decreases s.len() - k,
{
    if k < 0 || k >= s.len() {
        s.len() as int
    } else if s[k] == '\n' {
        k
    } else {
        line_end_spec(s, k + 1)
    }
}

/// What `.*` captures in `s` from `start`: the characters up to the first
/// line break, or to the end.
pub open spec fn line_from(s: Seq<char>, start: int) -> Seq<char> {
    s.subrange(start, line_end_spec(s, start))
}

proof fn lemma_line_end(s: Seq<char>, k: int)
    requires
        0 <= k <= s.len(),
    ensures
        k <= line_end_spec(s, k) <= s.len(),
        is_rest_of_line(s, k, line_from(s, k)),
    decreases s.len() - k,
{
    if k < s.len() && s[k] != '\n' {
        lemma_line_end(s, k + 1);
        assert(line_from(s, k) =~= seq![s[k]] + line_from(s, k + 1));
    }
}

/// The index of the first line break at or after `start`, or the length.
pub fn line_end(v: &Vec<char>, start: usize) -> (e: usize)
    requires
        start <= v@.len(),
    ensures
        e as int == line_end_spec(v@, start as int),
        start <= e <= v@.len(),
{
    let mut e = start;
    while e < v.len() && v[e] != '\n'
        invariant
            start <= e <= v@.len(),
            line_end_spec(v@, start as int) == line_end_spec(v@, e as int),
        decreases v.len() - e,
    {
        e = e + 1;
    }
    e
}

/// The rest of the line from `start`, as `.*` captures it.
pub fn rest_of_line(v: &Vec<char>, start: usize) -> (r: String)
    requires
        start <= v@.len(),
    ensures
        r@ == line_from(v@, start as int),
        is_rest_of_line(v@, start as int, r@),
{
    proof {
        lemma_line_end(v@, start as int);
    }
    let e = line_end(v, start);
    string_of_range(v, start, e)
}

/// Whether the text is exactly `lit`.
pub fn text_is(text: &str, lit: &str) -> (r: bool)
    ensures
        r == (text@ == lit@),
{
    let n = text.unicode_len();
    if n != lit.unicode_len() {
        return false;
    }
    let mut i: usize = 0;
    while i < n
        invariant
            n == text@.len() == lit@.len(),
            i <= n,
            text@.take(i as int) == lit@.take(i as int),
        decreases n - i,
    {
        if text.get_char(i) != lit.get_char(i) {
            assert(text@[i as int] != lit@[i as int]);
            return false;
        }
        assert(text@.take(i + 1) =~= text@.take(i as int).push(text@[i as int]));
        assert(lit@.take(i + 1) =~= lit@.take(i as int).push(lit@[i as int]));
        i = i + 1;
    }
    assert(text@ =~= text@.take(n as int));
    assert(lit@ =~= lit@.take(n as int));
    true
}


/// The characters begin with `lit`.
pub open spec fn begins_with(s: Seq<char>, lit: Seq<char>) -> bool {
    lit.len() <= s.len() && s.take(lit.len() as int) == lit
}

/// Whether the characters begin with `lit`.
pub fn chars_begin_with(v: &Vec<char>, lit: &str) -> (r: bool)
    ensures
        r == begins_with(v@, lit@),
{
    let n = lit.unicode_len();
    if n > v.len() {
        return false;
    }
    let mut i: usize = 0;
    while i < n
        invariant
            n == lit@.len() <= v@.len(),
            i <= n,
            v@.take(i as int) == lit@.take(i as int),
        decreases n - i,
    {
        if v[i] != lit.get_char(i) {
            assert(v@.take(n as int)[i as int] != lit@[i as int]);
            return false;
        }
        assert(v@.take(i + 1) =~= v@.take(i as int).push(v@[i as int]));
        assert(lit@.take(i + 1) =~= lit@.take(i as int).push(lit@[i as int]));
        i = i + 1;
    }
    assert(lit@ =~= lit@.take(n as int));
    true
}
} // verus!
