//! Describes the YouTube videos that messages link to.

use vstd::prelude::*;
use vstd::string::*;
use crate::duration::{DurationOutcome, ParseError, duration_outcome, parse_duration};
use crate::errors::Error;
use crate::json::{item_strings_at, json_item_strings, lemma_item_strings_at_len};
use crate::outside::{clock_text, is_word_char, time_of_day, to_uppercase, uppercase, word_character};
use crate::plugin::{Command, Plugin, PluginContext, Reaction, is_privmsg, is_quiet, command_is_privmsg};
use crate::text::{str_chars, string_of_range, no_newline};

verus! {

/// Answers a message that links to a YouTube video with the video's title,
/// length, definition, views, likes and dislikes.
pub struct YoutubePlugin;

// ---------------------------------------------------------------------------
// Finding the video: ^.*((youtu.be/)|(v/)|(/u/\w/)|(embed/)|(watch\?))\??v?=?(?P<video_id>[^#\&\?\s]*).*
// ---------------------------------------------------------------------------

/// The Unicode `White_Space` characters (the class `\s`).
pub open spec fn is_white_space(c: char) -> bool {
    ('\t' <= c <= '\r') || c == ' ' || c == '\u{85}' || c == '\u{a0}' || c == '\u{1680}'
        || ('\u{2000}' <= c <= '\u{200a}') || c == '\u{2028}' || c == '\u{2029}' || c == '\u{202f}'
        || c == '\u{205f}' || c == '\u{3000}'
}

/// A character that a video id holds: `[^#&?\s]`.
pub open spec fn is_id_char(c: char) -> bool {
    !(c == '#' || c == '&' || c == '?' || is_white_space(c))
}

/// `s[p..]` begins with the characters of `lit`.
pub open spec fn has_at(s: Seq<char>, p: int, lit: Seq<char>) -> bool {
    0 <= p && p + lit.len() <= s.len() && s.subrange(p, p + lit.len()) == lit
}

/// The length of the link marker that begins at `p`, or 0 when none does.
/// The markers are tried in order: `youtu.be/` (with any character but a
/// line break in place of the dot), `v/`, `/u/` with a word character and
/// `/`, `embed/`, `watch?`.
pub open spec fn marker_len(s: Seq<char>, p: int) -> int {
    if has_at(s, p, seq!['y', 'o', 'u', 't', 'u']) && has_at(s, p + 6, seq!['b', 'e', '/'])
        && s[p + 5] != '\n' {
        9
    } else if has_at(s, p, seq!['v', '/']) {
        2
    } else if has_at(s, p, seq!['/', 'u', '/']) && p + 5 <= s.len() && word_character(s[p + 3])
        && s[p + 4] == '/' {
        5
    } else if has_at(s, p, seq!['e', 'm', 'b', 'e', 'd', '/']) {
        6
    } else if has_at(s, p, seq!['w', 'a', 't', 'c', 'h', '?']) {
        6
    } else {
        0
    }
}

/// A link marker begins at `p`, within the first line.
pub open spec fn marker_at(s: Seq<char>, p: int) -> bool {
    0 <= p <= s.len() && no_newline(s.take(p)) && marker_len(s, p) > 0
}

/// Skips the optional character `c` at `q`.
pub open spec fn skip_opt(s: Seq<char>, q: int, c: char) -> int {
    if 0 <= q < s.len() && s[q] == c {
        q + 1
    } else {
        q
    }
}

/// The end of the run of id characters from `q`.
pub open spec fn id_end(s: Seq<char>, q: int) -> int
    decreases s.len() - q,
{
    if 0 <= q < s.len() && is_id_char(s[q]) {
        id_end(s, q + 1)
    } else {
        q
    }
}

/// The video id after the marker at `p`: `\??v?=?` is skipped, then the
/// longest run of id characters.
pub open spec fn id_after(s: Seq<char>, p: int) -> Seq<char> {
    let q = skip_opt(s, skip_opt(s, skip_opt(s, p + marker_len(s, p), '?'), 'v'), '=');
    s.subrange(q, id_end(s, q))
}

/// The video id that the message links to: the id after the last link
/// marker of the first line, or `None` when the first line has no marker.
pub open spec fn video_id_spec(s: Seq<char>) -> Option<Seq<char>> {
    if exists|p: int| marker_at(s, p) {
        let p = choose|p: int| marker_at(s, p) && forall|q: int| marker_at(s, q) ==> q <= p;
        Some(id_after(s, p))
    } else {
        None
    }
}

fn has_at_exec(v: &Vec<char>, p: usize, lit: &[char]) -> (r: bool)
    requires
        p <= v@.len(),
    ensures
        r == has_at(v@, p as int, lit@),
{
    if lit.len() > v.len() - p {
        return false;
    }
    let mut i: usize = 0;
    while i < lit.len()
        invariant
            p <= v.len(),
            lit@.len() <= v.len() - p,
            i <= lit@.len(),
            v@.subrange(p as int, p + i) == lit@.take(i as int),
        decreases lit.len() - i,
    {
        assert(p + i < v@.len());
        if v[p + i] != lit[i] {
            assert(v@.subrange(p as int, p + lit@.len())[i as int] != lit@[i as int]);
            return false;
        }
        assert(v@.subrange(p as int, p + i + 1) =~= v@.subrange(p as int, p + i).push(v@[p + i]));
        assert(lit@.take(i + 1) =~= lit@.take(i as int).push(lit@[i as int]));
        i = i + 1;
    }
    assert(lit@.take(lit@.len() as int) =~= lit@);
    true
}

fn marker_len_exec(v: &Vec<char>, p: usize) -> (r: usize)
    requires
        p <= v@.len(),
    ensures
        r as int == marker_len(v@, p as int),
        p + r <= v@.len(),
{
    let youtu: [char; 5] = ['y', 'o', 'u', 't', 'u'];
    let be: [char; 3] = ['b', 'e', '/'];
    let vs: [char; 2] = ['v', '/'];
    let us: [char; 3] = ['/', 'u', '/'];
    let embed: [char; 6] = ['e', 'm', 'b', 'e', 'd', '/'];
    let watch: [char; 6] = ['w', 'a', 't', 'c', 'h', '?'];
    assert(youtu@ =~= seq!['y', 'o', 'u', 't', 'u']);
    assert(be@ =~= seq!['b', 'e', '/']);
    assert(vs@ =~= seq!['v', '/']);
    assert(us@ =~= seq!['/', 'u', '/']);
    assert(embed@ =~= seq!['e', 'm', 'b', 'e', 'd', '/']);
    assert(watch@ =~= seq!['w', 'a', 't', 'c', 'h', '?']);
    let room = v.len() - p;
    if room >= 9 && has_at_exec(v, p, &youtu) && has_at_exec(v, p + 6, &be) && v[p + 5] != '\n' {
        9
    } else if has_at_exec(v, p, &vs) {
        2
    } else if room >= 5 && has_at_exec(v, p, &us) && is_word_char(v[p + 3]) && v[p + 4] == '/' {
        5
    } else if has_at_exec(v, p, &embed) {
        6
    } else if has_at_exec(v, p, &watch) {
        6
    } else {
        0
    }
}

fn skip_opt_exec(v: &Vec<char>, q: usize, c: char) -> (r: usize)
    requires
        q <= v@.len(),
    ensures
        r as int == skip_opt(v@, q as int, c),
        r <= v@.len(),
{
    if q < v.len() && v[q] == c {
        q + 1
    } else {
        q
    }
}

fn is_white_space_exec(c: char) -> (r: bool)
    ensures
        r == is_white_space(c),
{
    ('\t' <= c && c <= '\r') || c == ' ' || c == '\u{85}' || c == '\u{a0}' || c == '\u{1680}'
        || ('\u{2000}' <= c && c <= '\u{200a}') || c == '\u{2028}' || c == '\u{2029}'
        || c == '\u{202f}' || c == '\u{205f}' || c == '\u{3000}'
}

fn id_end_exec(v: &Vec<char>, q: usize) -> (r: usize)
    requires
        q <= v@.len(),
    ensures
        r as int == id_end(v@, q as int),
        q <= r <= v@.len(),
{
    let mut e = q;
    while e < v.len() && !(v[e] == '#' || v[e] == '&' || v[e] == '?' || is_white_space_exec(v[e]))
        invariant
            q <= e <= v@.len(),
            id_end(v@, q as int) == id_end(v@, e as int),
        decreases v.len() - e,
    {
        e = e + 1;
    }
    e
}

/// The index of the first line break, or the length.
fn first_line_end(v: &Vec<char>) -> (e: usize)
    ensures
        e <= v@.len(),
        no_newline(v@.take(e as int)),
        e < v@.len() ==> v@[e as int] == '\n',
{
    let mut e: usize = 0;
    while e < v.len() && v[e] != '\n'
        invariant
            e <= v@.len(),
            no_newline(v@.take(e as int)),
        decreases v.len() - e,
    {
        assert(v@.take(e + 1) =~= v@.take(e as int).push(v@[e as int]));
        e = e + 1;
    }
    e
}

/// The last position of the first line where a link marker begins.
fn last_marker(v: &Vec<char>) -> (r: Option<usize>)
    ensures
        match r {
            Some(p) => marker_at(v@, p as int) && forall|q: int| marker_at(v@, q) ==> q <= p,
            None => forall|q: int| !marker_at(v@, q),
        },
{
    let first_break = first_line_end(v);
    let mut p = first_break;
    proof {
        assert forall|q: int| first_break <= q implies !#[trigger] marker_at(v@, q) by {
            if q > first_break && q <= v@.len() {
                assert(v@.take(q)[first_break as int] == '\n');
            }
        }
    }
    while p > 0
        invariant
            p <= first_break,
            first_break <= v@.len(),
            no_newline(v@.take(first_break as int)),
            first_break < v@.len() ==> v@[first_break as int] == '\n',
            forall|q: int| p <= q ==> !#[trigger] marker_at(v@, q),
        decreases p,
    {
        p = p - 1;
        let len = marker_len_exec(v, p);
        if len > 0 {
            assert(v@.take(p as int) =~= v@.take(first_break as int).take(p as int));
            assert(marker_at(v@, p as int));
            return Some(p);
        }
    }
    None
}

proof fn lemma_video_id_at(s: Seq<char>, p: int)
    requires
        marker_at(s, p),
        forall|q: int| marker_at(s, q) ==> q <= p,
    ensures
        video_id_spec(s) == Some(id_after(s, p)),
{
    let c = choose|x: int| marker_at(s, x) && forall|y: int| marker_at(s, y) ==> y <= x;
    assert(marker_at(s, c) && forall|y: int| marker_at(s, y) ==> y <= c);
    assert(c <= p && p <= c);
}

proof fn lemma_id_end_bounds(s: Seq<char>, q: int)
    requires
        0 <= q <= s.len(),
    ensures
        q <= id_end(s, q) <= s.len(),
    decreases s.len() - q,
{
    if q < s.len() && is_id_char(s[q]) {
        lemma_id_end_bounds(s, q + 1);
    }
}

proof fn lemma_id_run_chars(s: Seq<char>, q: int)
    ensures
        forall|i: int| q <= i < id_end(s, q) ==> is_id_char(#[trigger] s[i]),
    decreases s.len() - q,
{
    if 0 <= q < s.len() && is_id_char(s[q]) {
        lemma_id_run_chars(s, q + 1);
    }
}

proof fn lemma_id_slice_chars(s: Seq<char>, q: int)
    requires
        0 <= q <= s.len(),
    ensures
        forall|i: int| 0 <= i < s.subrange(q, id_end(s, q)).len()
            ==> is_id_char(#[trigger] s.subrange(q, id_end(s, q))[i]),
{
    lemma_id_run_chars(s, q);
    lemma_id_end_bounds(s, q);
    assert forall|i: int| 0 <= i < s.subrange(q, id_end(s, q)).len()
        implies is_id_char(#[trigger] s.subrange(q, id_end(s, q))[i]) by {
        assert(s.subrange(q, id_end(s, q))[i] == s[q + i]);
    }
}

proof fn lemma_last_marker_exists(s: Seq<char>, w: int, k: int)
    requires
        marker_at(s, w),
        w <= k,
        forall|q: int| marker_at(s, q) ==> q <= k,
    ensures
        exists|p: int| marker_at(s, p) && forall|q: int| marker_at(s, q) ==> q <= p,
    decreases k - w,
{
    if marker_at(s, k) {
        assert(marker_at(s, k) && forall|q: int| marker_at(s, q) ==> q <= k);
    } else {
        lemma_last_marker_exists(s, w, k - 1);
    }
}

/// A video id found in a message holds no `#`, `&`, `?` and no white
/// space: it stops before the first of them.
pub proof fn lemma_video_id_chars(s: Seq<char>)
    ensures
        video_id_spec(s) matches Some(id) ==> forall|i: int| 0 <= i < id.len() ==> is_id_char(#[trigger] id[i]),
{
    if video_id_spec(s) is Some {
        let w = choose|p: int| marker_at(s, p);
        lemma_last_marker_exists(s, w, s.len() as int);
        let p = choose|p: int| marker_at(s, p) && forall|q: int| marker_at(s, q) ==> q <= p;
        assert(p + marker_len(s, p) <= s.len());
        lemma_id_slice_chars(s, skip_opt(s, skip_opt(s, skip_opt(s, p + marker_len(s, p), '?'), 'v'), '='));
    }
}

/// What a link marker at `q` is made of: each kind holds a `/` or a `?`
/// a little after `q`.
proof fn lemma_marker_shape(s: Seq<char>, q: int)
    requires
        0 <= q,
        marker_len(s, q) > 0,
    ensures
        (q + 8 < s.len() && s[q] == 'y' && s[q + 8] == '/') || (q + 1 < s.len() && s[q] == 'v' && s[q + 1]
            == '/') || (q + 4 < s.len() && s[q] == '/' && s[q + 4] == '/') || (q + 5 < s.len() && s[q] == 'e'
            && s[q + 5] == '/') || (q + 5 < s.len() && s[q] == 'w' && s[q + 5] == '?'),
{
    if has_at(s, q, seq!['y', 'o', 'u', 't', 'u']) && has_at(s, q + 6, seq!['b', 'e', '/']) && s[q + 5]
        != '\n' {
        assert(s.subrange(q, q + 5)[0] == s[q]);
        assert(s.subrange(q + 6, q + 9)[2] == s[q + 8]);
    } else if has_at(s, q, seq!['v', '/']) {
        assert(s.subrange(q, q + 2)[0] == s[q]);
        assert(s.subrange(q, q + 2)[1] == s[q + 1]);
    } else if has_at(s, q, seq!['/', 'u', '/']) && q + 5 <= s.len() && word_character(s[q + 3]) && s[q
        + 4] == '/' {
        assert(s.subrange(q, q + 3)[0] == s[q]);
    } else if has_at(s, q, seq!['e', 'm', 'b', 'e', 'd', '/']) {
        assert(s.subrange(q, q + 6)[0] == s[q]);
        assert(s.subrange(q, q + 6)[5] == s[q + 5]);
    } else {
        assert(s.subrange(q, q + 6)[0] == s[q]);
        assert(s.subrange(q, q + 6)[5] == s[q + 5]);
    }
}

/// No marker begins at `q` where the character there cannot begin one.
proof fn lemma_no_marker_here(s: Seq<char>, q: int)
    requires
        0 <= q < s.len(),
        s[q] != 'y' && s[q] != '/' && s[q] != 'e' && s[q] != 'w',
        s[q] == 'v' ==> q + 1 < s.len() && s[q + 1] != '/',
    ensures
        marker_len(s, q) == 0,
{
    if marker_len(s, q) > 0 {
        lemma_marker_shape(s, q);
    }
}

/// An id character of a link: printable ASCII other than `#`, `&`, `?` and
/// `/` (letters, digits, `-`, `_`, `.`, `=`, ...).
pub open spec fn is_link_id_char(c: char) -> bool {
    '!' <= c <= '~' && c != '#' && c != '&' && c != '?' && c != '/'
}

proof fn lemma_id_end_to_end(s: Seq<char>, q: int)
    requires
        0 <= q <= s.len(),
        forall|k: int| q <= k < s.len() ==> is_link_id_char(#[trigger] s[k]),
    ensures
        id_end(s, q) == s.len(),
    decreases s.len() - q,
{
    if q < s.len() {
        assert(is_link_id_char(s[q]));
        lemma_id_end_to_end(s, q + 1);
    }
}

/// A link `<prefix><id>` whose prefix ends with a marker at `m` names the
/// video `<id>`, when no marker begins in the prefix after `m`, the id
/// starts right where the marker and its `?v=` end, and the id is made of
/// link id characters.
#[verifier::spinoff_prover]
proof fn lemma_link_names_video(pre: Seq<char>, id: Seq<char>, m: int)
    requires
        0 <= m,
        marker_at(pre + id, m),
        forall|q: int| m < q < pre.len() ==> !#[trigger] marker_at(pre + id, q),
        forall|i: int| 0 <= i < id.len() ==> is_link_id_char(#[trigger] id[i]),
        skip_opt(pre + id, skip_opt(pre + id, skip_opt(pre + id, m + marker_len(pre + id, m), '?'), 'v'), '=')
            == pre.len(),
    ensures
        video_id_spec(pre + id) == Some(id),
{
    let s = pre + id;
    assert forall|k: int| pre.len() <= k < s.len() implies is_link_id_char(#[trigger] s[k]) by {
        assert(s[k] == id[k - pre.len()]);
    }
    assert forall|q: int| marker_at(s, q) implies q <= m by {
        if q > m {
            lemma_marker_shape(s, q);
            if q >= pre.len() {
                assert(is_link_id_char(s[q]));
            }
            assert(false);
        }
    }
    lemma_video_id_at(s, m);
    lemma_id_end_to_end(s, pre.len() as int);
    assert(s.subrange(pre.len() as int, s.len() as int) =~= id);
}

/// A short link names the video it ends with: `https://youtu.be/<id>` gives
/// `<id>` for every id of printable ASCII characters other than `#`, `&`,
/// `?` and `/` (letters, digits, `-`, `_`, `.`, ...) that does not begin
/// with `v` or `=`, which the link syntax `?v=` would skip.
#[verifier::spinoff_prover]
pub proof fn lemma_short_link_names_video(id: Seq<char>)
    requires
        forall|i: int| 0 <= i < id.len() ==> '!' <= #[trigger] id[i] <= '~' && id[i] != '#' && id[i] != '&'
            && id[i] != '?' && id[i] != '/',
        id.len() > 0 ==> id[0] != 'v' && id[0] != '=',
    ensures
        video_id_spec("https://youtu.be/"@ + id) == Some(id),
{
    reveal_strlit("https://youtu.be/");
    let pre = "https://youtu.be/"@;
    assert(pre =~= seq!['h', 't', 't', 'p', 's', ':', '/', '/', 'y', 'o', 'u', 't', 'u', '.', 'b', 'e', '/']);
    let s = pre + id;
    assert forall|i: int| 0 <= i < id.len() implies is_link_id_char(#[trigger] id[i]) by {}
    assert forall|k: int| 17 <= k < s.len() implies is_link_id_char(#[trigger] s[k]) by {
        assert(s[k] == id[k - 17]);
    }
    assert(s.subrange(8, 13) =~= seq!['y', 'o', 'u', 't', 'u']);
    assert(s.subrange(14, 17) =~= seq!['b', 'e', '/']);
    assert(s[13] == '.');
    assert(marker_len(s, 8) == 9);
    assert forall|i: int| 0 <= i < 8 implies s.take(8)[i] != '\n' by {
        assert(s.take(8)[i] == pre[i]);
    }
    assert(marker_at(s, 8));
    assert forall|q: int| 8 < q < 17 implies !#[trigger] marker_at(s, q) by {
        if marker_at(s, q) {
            lemma_marker_shape(s, q);
            assert(s[q] == pre[q]);
            if q + 1 < 17 {
                assert(s[q + 1] == pre[q + 1]);
            } else {
                assert(is_link_id_char(s[q + 1]));
            }
            if q + 4 < s.len() && q + 4 >= 17 {
                assert(is_link_id_char(s[q + 4]));
            }
            if q + 5 < s.len() {
                if q + 5 >= 17 {
                    assert(is_link_id_char(s[q + 5]));
                } else {
                    assert(s[q + 5] == pre[q + 5]);
                }
            }
            if q + 8 < s.len() && q + 8 >= 17 {
                assert(is_link_id_char(s[q + 8]));
            }
        }
    }
    if s.len() > 17 {
        assert(s[17] == id[0]);
    }
    lemma_link_names_video(pre, id, 8);
}

/// The characters of the watch link's prefix that the proof below reads.
#[verifier::spinoff_prover]
proof fn lemma_watch_prefix(id: Seq<char>)
    ensures
        ({
            let s = "https://www.youtube.com/watch?v="@ + id;
            &&& s.len() == 32 + id.len()
            &&& no_newline(s.take(24))
            &&& s.subrange(24, 30) == seq!['w', 'a', 't', 'c', 'h', '?']
            &&& s[30] == 'v' && s[31] == '='
        }),
{
    reveal_strlit("https://www.youtube.com/watch?v=");
    let pre = "https://www.youtube.com/watch?v="@;
    let s = pre + id;
    assert(pre.take(24) =~= seq![
        'h', 't', 't', 'p', 's', ':', '/', '/', 'w', 'w', 'w', '.', 'y', 'o', 'u', 't', 'u', 'b', 'e', '.',
        'c', 'o', 'm', '/',
    ]);
    assert(s.take(24) =~= pre.take(24));
    assert(s.subrange(24, 30) =~= seq!['w', 'a', 't', 'c', 'h', '?']);
    assert(s[30] == 'v' && s[31] == '=');
}

/// A watch link names the video it ends with:
/// `https://www.youtube.com/watch?v=<id>` gives `<id>` for every id of
/// printable ASCII characters other than `#`, `&`, `?` and `/` (letters,
/// digits, `-`, `_`, `.`, ...).
#[verifier::spinoff_prover]
pub proof fn lemma_watch_link_names_video(id: Seq<char>)
    requires
        forall|i: int| 0 <= i < id.len() ==> '!' <= #[trigger] id[i] <= '~' && id[i] != '#' && id[i] != '&'
            && id[i] != '?' && id[i] != '/',
    ensures
        video_id_spec("https://www.youtube.com/watch?v="@ + id) == Some(id),
{
    let pre = "https://www.youtube.com/watch?v="@;
    let s = pre + id;
    lemma_watch_prefix(id);
    assert forall|i: int| 0 <= i < id.len() implies is_link_id_char(#[trigger] id[i]) by {}
    lemma_watch_markers(s);
    if s.len() > 32 {
        assert(s[32] == id[0]);
    }
    lemma_link_names_video(pre, id, 24);
}

/// In a text that begins like a watch link, the marker `watch?` at 24 is
/// the last one before the id.
#[verifier::spinoff_prover]
proof fn lemma_watch_markers(s: Seq<char>)
    requires
        s.len() >= 32,
        no_newline(s.take(24)),
        s.subrange(24, 30) == seq!['w', 'a', 't', 'c', 'h', '?'],
        s[30] == 'v' && s[31] == '=',
    ensures
        marker_at(s, 24),
        marker_len(s, 24) == 6,
        forall|q: int| 24 < q < 32 ==> !#[trigger] marker_at(s, q),
{
    let w = s.subrange(24, 30);
    assert(w[0] == s[24] && w[1] == s[25] && w[2] == s[26] && w[3] == s[27] && w[4] == s[28] && w[5] == s[29]);
    assert(s[24] == 'w' && s[25] == 'a' && s[26] == 't' && s[27] == 'c' && s[28] == 'h' && s[29] == '?');
    assert(!has_at(s, 24, seq!['y', 'o', 'u', 't', 'u'])) by {
        assert(s.subrange(24, 29)[0] == s[24]);
    }
    assert(!has_at(s, 24, seq!['v', '/'])) by {
        assert(s.subrange(24, 26)[0] == s[24]);
    }
    assert(!has_at(s, 24, seq!['/', 'u', '/'])) by {
        assert(s.subrange(24, 27)[0] == s[24]);
    }
    assert(!has_at(s, 24, seq!['e', 'm', 'b', 'e', 'd', '/'])) by {
        assert(s.subrange(24, 30)[0] == s[24]);
    }
    assert(has_at(s, 24, seq!['w', 'a', 't', 'c', 'h', '?']));
    assert(marker_len(s, 24) == 6);
    assert(marker_at(s, 24));
    lemma_no_marker_here(s, 25);
    lemma_no_marker_here(s, 26);
    lemma_no_marker_here(s, 27);
    lemma_no_marker_here(s, 28);
    lemma_no_marker_here(s, 29);
    lemma_no_marker_here(s, 30);
    lemma_no_marker_here(s, 31);
    assert forall|q: int| 24 < q < 32 implies !#[trigger] marker_at(s, q) by {
        assert(25 <= q <= 31);
    }
}

/// The video id that the message links to, as the expression above
/// captures it.
pub fn video_id(text: &str) -> (r: Option<String>)
    ensures
        match video_id_spec(text@) {
            Some(id) => r matches Some(x) && x@ == id,
            None => r is None,
        },
{
    let v = str_chars(text);
    match last_marker(&v) {
        None => None,
        Some(p) => {
            proof {
                lemma_video_id_at(v@, p as int);
            }
            let len = marker_len_exec(&v, p);
            assert(p + len <= v@.len());
            let q = skip_opt_exec(&v, p + len, '?');
            let q = skip_opt_exec(&v, q, 'v');
            let q = skip_opt_exec(&v, q, '=');
            let e = id_end_exec(&v, q);
            Some(string_of_range(&v, q, e))
        },
    }
}

// ---------------------------------------------------------------------------
// The answer
// ---------------------------------------------------------------------------

/// The address of the YouTube Data API request for the video.
pub open spec fn api_address(video_id: Seq<char>, api_key: Seq<char>) -> Seq<char> {
    "https://www.googleapis.com/youtube/v3/videos?part=contentDetails,snippet,statistics&id="@
        + video_id + "&key="@ + api_key
}

/// The address of the YouTube Data API request for the video.
pub fn api_url(video_id: &str, api_key: &str) -> (r: String)
    ensures
        r@ == api_address(video_id@, api_key@),
{
    let mut r = String::from_str(
        "https://www.googleapis.com/youtube/v3/videos?part=contentDetails,snippet,statistics&id=",
    );
    r.append(video_id);
    r.append("&key=");
    r.append(api_key);
    r
}

/// What the API tells of a video: its title, its length as an ISO 8601
/// duration, its definition (`hd` or `sd`), and its counts of views, likes
/// and dislikes, as the API writes them.
#[derive(Debug, Clone)]
pub struct VideoInfo {
    pub title: String,
    pub duration: String,
    pub definition: String,
    pub views: String,
    pub likes: String,
    pub dislikes: String,
}

/// Where the video's title, length, definition, and counts of views, likes
/// and dislikes lie in an item of the API's answer: the group, then the
/// field.
pub open spec fn video_paths() -> Seq<(Seq<char>, Seq<char>)> {
    seq![
        ("snippet"@, "title"@),
        ("contentDetails"@, "duration"@),
        ("contentDetails"@, "definition"@),
        ("statistics"@, "viewCount"@),
        ("statistics"@, "likeCount"@),
        ("statistics"@, "dislikeCount"@),
    ]
}

/// What the API's answer `body` tells of the first video it lists: each of
/// the six fields under `items[0]` must be a string. A body that is not
/// JSON, or a field that is not a string (the first such, with serde_json's
/// text), gives `Error::Json`.
pub fn video_info(body: &str) -> (r: Result<VideoInfo, Error>)
    ensures
        match item_strings_at(body@, "items"@, 0, video_paths()) {
            Ok(s) => r matches Ok(info) && info.title@ == s[0] && info.duration@ == s[1]
                && info.definition@ == s[2] && info.views@ == s[3] && info.likes@ == s[4]
                && info.dislikes@ == s[5],
            Err(None) => r matches Err(Error::Json(_)),
            Err(Some(t)) => r matches Err(Error::Json(x)) && x@ == t,
        },
{
    let paths: Vec<(&str, &str)> = vec![
        ("snippet", "title"),
        ("contentDetails", "duration"),
        ("contentDetails", "definition"),
        ("statistics", "viewCount"),
        ("statistics", "likeCount"),
        ("statistics", "dislikeCount"),
    ];
    assert(paths@.map_values(|p: (&str, &str)| (p.0@, p.1@)) =~= video_paths());
    proof {
        lemma_item_strings_at_len(body@, "items"@, 0, video_paths());
    }
    match json_item_strings(body, "items", 0, &paths) {
        Err(e) => Err(e),
        Ok(v) => {
            let ghost s = v@.map_values(|x: String| x@);
            assert(v@.len() == 6);
            let mut v = v;
            let dislikes = v.pop().unwrap();
            let likes = v.pop().unwrap();
            let views = v.pop().unwrap();
            let definition = v.pop().unwrap();
            let duration = v.pop().unwrap();
            let title = v.pop().unwrap();
            Ok(VideoInfo { title, duration, definition, views, likes, dislikes })
        },
    }
}

/// The answer that describes a video, with IRC bold and color codes:
/// `title [HH:MM:SS] DEFINITION views views (+likes|-dislikes) link`.
pub open spec fn video_text(info: VideoInfo, clock: Seq<char>, video_id: Seq<char>) -> Seq<char> {
    "\x02"@ + info.title@ + "\x0F ["@ + clock + "] \x02\x0304"@ + uppercase(info.definition@)
        + "\x0F "@ + info.views@ + " views (+\x0303"@ + info.likes@ + "\x0F|-\x0304"@
        + info.dislikes@ + "\x0F) \x02https://youtu.be/"@ + video_id + "\x0F"@
}

/// The reply shows the video's title, then its length, then its
/// definition in upper case, in bold red: right after `title [clock] `
/// stands `\x02\x0304`, the definition in upper case, and `\x0F`.
pub proof fn lemma_reply_shows_definition(info: VideoInfo, clock: Seq<char>, video_id: Seq<char>)
    ensures
        ({
            let head = "\x02"@ + info.title@ + "\x0F ["@ + clock + "] "@;
            let shown = "\x02\x0304"@ + uppercase(info.definition@) + "\x0F"@;
            let text = video_text(info, clock, video_id);
            &&& head.len() + shown.len() <= text.len()
            &&& text.take(head.len() as int) == head
            &&& text.subrange(head.len() as int, (head.len() + shown.len()) as int) == shown
        }),
{
    reveal_strlit("] \x02\x0304");
    reveal_strlit("] ");
    reveal_strlit("\x02\x0304");
    reveal_strlit("\x0F ");
    reveal_strlit("\x0F");
    let head = "\x02"@ + info.title@ + "\x0F ["@ + clock + "] "@;
    let shown = "\x02\x0304"@ + uppercase(info.definition@) + "\x0F"@;
    let rest = " "@ + info.views@ + " views (+\x0303"@ + info.likes@ + "\x0F|-\x0304"@ + info.dislikes@
        + "\x0F) \x02https://youtu.be/"@ + video_id + "\x0F"@;
    reveal_strlit(" ");
    assert("] \x02\x0304"@ =~= "] "@ + "\x02\x0304"@);
    assert("\x0F "@ =~= "\x0F"@ + " "@);
    let text = video_text(info, clock, video_id);
    assert(text =~= head + shown + rest);
    assert(text.take(head.len() as int) =~= head);
    assert(text.subrange(head.len() as int, (head.len() + shown.len()) as int) =~= shown);
}

/// The reply ends with the video's counts and a link back to it: the views,
/// then the likes in green and the dislikes in red in brackets, then
/// `https://youtu.be/<id>` in bold.
pub proof fn lemma_reply_ends_with_counts_and_link(info: VideoInfo, clock: Seq<char>, video_id: Seq<char>)
    ensures
        ({
            let tail = " "@ + info.views@ + " views (+\x0303"@ + info.likes@ + "\x0F|-\x0304"@ + info.dislikes@
                + "\x0F) "@ + "\x02https://youtu.be/"@ + video_id + "\x0F"@;
            let text = video_text(info, clock, video_id);
            &&& tail.len() <= text.len()
            &&& text.skip(text.len() - tail.len()) == tail
        }),
{
    reveal_strlit("\x0F ");
    reveal_strlit("\x0F");
    reveal_strlit(" ");
    reveal_strlit("\x0F) \x02https://youtu.be/");
    reveal_strlit("\x0F) ");
    reveal_strlit("\x02https://youtu.be/");
    assert("\x0F "@ =~= "\x0F"@ + " "@);
    assert("\x0F) \x02https://youtu.be/"@ =~= "\x0F) "@ + "\x02https://youtu.be/"@);
    let front = "\x02"@ + info.title@ + "\x0F ["@ + clock + "] \x02\x0304"@ + uppercase(info.definition@) + "\x0F"@;
    let tail = " "@ + info.views@ + " views (+\x0303"@ + info.likes@ + "\x0F|-\x0304"@ + info.dislikes@
        + "\x0F) "@ + "\x02https://youtu.be/"@ + video_id + "\x0F"@;
    let text = video_text(info, clock, video_id);
    assert(text =~= front + tail);
    assert(text.skip(text.len() - tail.len()) =~= tail);
}

/// Two videos that differ only in their definition, and in upper case at
/// that, get different replies.
pub proof fn lemma_definition_changes_reply(a: VideoInfo, b: VideoInfo, clock: Seq<char>, video_id: Seq<char>)
    requires
        a.title@ == b.title@,
        a.views@ == b.views@,
        a.likes@ == b.likes@,
        a.dislikes@ == b.dislikes@,
        uppercase(a.definition@) != uppercase(b.definition@),
    ensures
        video_text(a, clock, video_id) != video_text(b, clock, video_id),
{
    let p = "\x02"@ + a.title@ + "\x0F ["@ + clock + "] \x02\x0304"@;
    let r = "\x0F "@ + a.views@ + " views (+\x0303"@ + a.likes@ + "\x0F|-\x0304"@ + a.dislikes@
        + "\x0F) \x02https://youtu.be/"@ + video_id + "\x0F"@;
    let ua = uppercase(a.definition@);
    let ub = uppercase(b.definition@);
    let ta = video_text(a, clock, video_id);
    let tb = video_text(b, clock, video_id);
    assert(ta =~= p + ua + r);
    assert(tb =~= p + ub + r);
    if ta == tb {
        assert(ua.len() == ub.len());
        assert(ta.subrange(p.len() as int, (p.len() + ua.len()) as int) =~= ua);
        assert(tb.subrange(p.len() as int, (p.len() + ub.len()) as int) =~= ub);
    }
}

/// The answer for a video, or why it cannot be given: its length must read
/// as a duration. A length whose seconds overflow is refused by the
/// precondition, as `parse_duration` refuses it.
pub fn video_reply(info: &VideoInfo, video_id: &str) -> (r: Result<String, Error>)
    requires
        duration_outcome(info.duration@) != DurationOutcome::Overflow,
    ensures
        match duration_outcome(info.duration@) {
            DurationOutcome::Seconds(t) => r matches Ok(x) && x@ == video_text(*info, clock_text(t as int), video_id@),
            DurationOutcome::Invalid => r matches Err(Error::Duration(ParseError::InvalidDuration(_))),
            DurationOutcome::BadNumber(e) => r matches Err(Error::Duration(ParseError::ParseIntError(k))) && k == e,
            DurationOutcome::Overflow => false,
        },
{
    let duration = match parse_duration(info.duration.as_str()) {
        Ok(d) => d,
        Err(e) => return Err(Error::Duration(e)),
    };
    let clock = time_of_day(duration.num_seconds());
    let definition = to_uppercase(info.definition.as_str());
    let mut r = String::from_str("\x02");
    r.append(info.title.as_str());
    r.append("\x0F [");
    r.append(clock.as_str());
    r.append("] \x02\x0304");
    r.append(definition.as_str());
    r.append("\x0F ");
    r.append(info.views.as_str());
    r.append(" views (+\x0303");
    r.append(info.likes.as_str());
    r.append("\x0F|-\x0304");
    r.append(info.dislikes.as_str());
    r.append("\x0F) \x02https://youtu.be/");
    r.append(video_id);
    r.append("\x0F");
    Ok(r)
}

/// What `YoutubePlugin` asks for on the message of `context`.
pub open spec fn youtube_reaction(context: PluginContext, r: Result<Reaction, Error>) -> bool {
    match context.message.command {
        Command::Privmsg(target, msg) => match video_id_spec(msg@) {
            Some(id) => r matches Ok(Reaction::FetchVideo { target: t, video_id: x })
                && t@ == target@ && x@ == id,
            None => is_quiet(r),
        },
        _ => is_quiet(r),
    }
}

impl Plugin for YoutubePlugin {
    fn will_handle(&self, command: Command) -> (r: bool)
        ensures
            r == is_privmsg(command),
    {
        command_is_privmsg(&command)
    }

    fn handle(&mut self, context: &PluginContext) -> (r: Result<Reaction, Error>)
        ensures
            youtube_reaction(*context, r),
    {
        match &context.message.command {
            Command::Privmsg(target, msg) => match video_id(msg.as_str()) {
                Some(id) => Ok(Reaction::FetchVideo { target: target.clone(), video_id: id }),
                None => Ok(Reaction::Nothing),
            },
            _ => Ok(Reaction::Nothing),
        }
    }
}

} // verus!
