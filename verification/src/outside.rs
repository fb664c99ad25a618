//! The calls into other crates and into parts of `std` that the verifier
//! has no specification for. Each item here is trusted: its contract is
//! taken as given, as its doc comment says.

use vstd::prelude::*;
use rand::Rng;
use vstd::multiset::Multiset;
use crate::text::join_spec;

verus! {

// ---------------------------------------------------------------------------
// regex
// ---------------------------------------------------------------------------

/// What `regex::Regex::new(pattern)` followed by `is_match(text)` gives:
/// `None` when the pattern does not compile, else whether the regular
/// expression matches somewhere in the text.
pub uninterp spec fn regex_is_match_spec(pattern: Seq<char>, text: Seq<char>) -> Option<bool>;

/// Compiles `pattern` with `regex::Regex::new` and tests it against `text`
/// with `Regex::is_match`. Trusted: the result is the one named by
/// `regex_is_match_spec`; an error, carrying the text of `regex::Error`,
/// exactly when the pattern does not compile.
#[verifier::external_body]
pub(crate) fn regex_is_match(pattern: &str, text: &str) -> (r: Result<bool, String>)
    ensures
        r is Err <==> regex_is_match_spec(pattern@, text@) is None,
        r matches Ok(b) ==> regex_is_match_spec(pattern@, text@) == Some(b),
{
    match regex::Regex::new(pattern) {
        Ok(re) => Ok(re.is_match(text)),
        Err(e) => Err(e.to_string()),
    }
}

/// What `regex::Regex::new(pattern)`, `captures(text)` and `name(group)`
/// give: `None` when the pattern does not compile; `Some(None)` when the
/// expression does not match; `Some(Some(None))` when it matches and the
/// named group takes no part in the match; else the group's text.
pub uninterp spec fn regex_capture_spec(pattern: Seq<char>, text: Seq<char>, group: Seq<char>) -> Option<Option<Option<Seq<char>>>>;

/// The view of a captured group.
pub open spec fn capture_view(c: Option<Option<String>>) -> Option<Option<Seq<char>>> {
    match c {
        None => None,
        Some(None) => Some(None),
        Some(Some(s)) => Some(Some(s@)),
    }
}

/// Compiles `pattern` with `regex::Regex::new`, takes the first match in
/// `text` with `Regex::captures`, and the text of the group named `group`
/// with `Captures::name`. Trusted: the result is the one named by
/// `regex_capture_spec`; an error, carrying the text of `regex::Error`,
/// exactly when the pattern does not compile.
#[verifier::external_body]
pub(crate) fn regex_named_capture(pattern: &str, text: &str, group: &str) -> (r: Result<Option<Option<String>>, String>)
    ensures
        r is Err <==> regex_capture_spec(pattern@, text@, group@) is None,
        r matches Ok(c) ==> regex_capture_spec(pattern@, text@, group@) == Some(capture_view(c)),
{
    match regex::Regex::new(pattern) {
        Err(e) => Err(e.to_string()),
        Ok(re) => match re.captures(text) {
            None => Ok(None),
            Some(caps) => match caps.name(group) {
                None => Ok(Some(None)),
                Some(m) => Ok(Some(Some(m.as_str().to_string()))),
            },
        },
    }
}

/// Whether `regex_syntax::is_word_character` holds of the character: the
/// class `\w` of Unicode regular expressions (Alphabetic, Join_Control,
/// Decimal_Number, Mark, Connector_Punctuation).
pub uninterp spec fn word_character(c: char) -> bool;

/// Calls `regex_syntax::is_word_character`. Trusted: the result is the one
/// named by `word_character`. With the crate's default features the call
/// does not panic.
#[verifier::external_body]
pub(crate) fn is_word_char(c: char) -> (r: bool)
    ensures
        r == word_character(c),
{
    regex_syntax::is_word_character(c)
}

// ---------------------------------------------------------------------------
// url
// ---------------------------------------------------------------------------

/// What `url::Url::parse(input)` gives, as the serialization of the parsed
/// URL (what `Url` displays as), or `None` when parsing fails.
pub uninterp spec fn url_serialization(input: Seq<char>) -> Option<Seq<char>>;

/// Parses `input` with `url::Url::parse` and returns the URL's
/// serialization (`Url::into_string`, the text `Url` displays as). Trusted:
/// the result is the one named by `url_serialization`; an error, carrying
/// the text of `url::ParseError`, exactly when parsing fails.
#[verifier::external_body]
pub(crate) fn parse_url(input: &str) -> (r: Result<String, String>)
    ensures
        r is Err <==> url_serialization(input@) is None,
        r matches Ok(s) ==> url_serialization(input@) == Some(s@),
{
    match url::Url::parse(input) {
        Ok(u) => Ok(u.into_string()),
        Err(e) => Err(e.to_string()),
    }
}

// ---------------------------------------------------------------------------
// time
// ---------------------------------------------------------------------------

/// The two decimal digits of `n`, for `0 <= n < 100`.
pub open spec fn two_digits(n: int) -> Seq<char> {
    seq![(('0' as int) + n / 10) as char, (('0' as int) + n % 10) as char]
}

/// `HH:MM:SS` of the time of day that lies `seconds` after a midnight.
pub open spec fn clock_text(seconds: int) -> Seq<char> {
    let t = seconds % 86400;
    two_digits(t / 3600) + seq![':'] + two_digits((t % 3600) / 60) + seq![':'] + two_digits(t % 60)
}

/// Formats `(time::empty_tm() + time::Duration::seconds(seconds))` with
/// `strftime("%X")`. Trusted, from the source of `time` 0.1: `empty_tm`
/// is a UTC midnight (timegm of day 0 of 1900), adding a duration goes
/// through `gmtime_r`, and `%X` prints `%H:%M:%S` with two digits each, so
/// the text is the time of day `seconds` after midnight. `Duration::seconds`
/// panics outside the range that the precondition leaves out; `%X` is a
/// valid format, so `strftime` does not fail.
#[verifier::external_body]
pub(crate) fn time_of_day(seconds: i64) -> (r: String)
    requires
        -9223372036854775 <= seconds <= 9223372036854775,
    ensures
        r@ == clock_text(seconds as int),
{
    match (time::empty_tm() + time::Duration::seconds(seconds)).strftime("%X") {
        Ok(t) => t.to_string(),
        Err(_) => String::new(),
    }
}

// ---------------------------------------------------------------------------
// std text conversions
// ---------------------------------------------------------------------------

/// What `str::to_lowercase` gives (Unicode lowercase mapping).
pub uninterp spec fn lowercase(s: Seq<char>) -> Seq<char>;

/// Calls `str::to_lowercase`. Trusted: the result is the one named by
/// `lowercase`.
#[verifier::external_body]
pub(crate) fn to_lowercase(s: &str) -> (r: String)
    ensures
        r@ == lowercase(s@),
{
    s.to_lowercase()
}

/// ASCII upper case is already in upper case.
pub proof fn lemma_ascii_upper_idempotent(s: Seq<char>)
    ensures
        ascii_upper(ascii_upper(s)) == ascii_upper(s),
        is_ascii_text(s) ==> is_ascii_text(ascii_upper(s)),
{
    assert forall|i: int| 0 <= i < s.len() implies #[trigger] ascii_upper_char(ascii_upper_char(s[i]))
        == ascii_upper_char(s[i]) && ((s[i] as u32) < 128 ==> (ascii_upper_char(s[i]) as u32) < 128) by {
        let c = s[i];
        if 'a' <= c <= 'z' {
            assert((((c as u32) - 32) as char) as u32 == (c as u32) - 32);
        }
    }
    assert(ascii_upper(ascii_upper(s)) =~= ascii_upper(s));
}

/// What `str::to_uppercase` gives (Unicode uppercase mapping).
pub uninterp spec fn uppercase(s: Seq<char>) -> Seq<char>;

/// Every character is ASCII.
pub open spec fn is_ascii_text(s: Seq<char>) -> bool {
    forall|i: int| 0 <= i < s.len() ==> (s[i] as u32) < 128
}

/// The ASCII upper case of a character: `a` to `z` become `A` to `Z`, and
/// every other character stays.
pub open spec fn ascii_upper_char(c: char) -> char {
    if 'a' <= c <= 'z' {
        ((c as u32) - 32) as char
    } else {
        c
    }
}

/// The ASCII upper case of each character.
pub open spec fn ascii_upper(s: Seq<char>) -> Seq<char> {
    s.map_values(|c: char| ascii_upper_char(c))
}

/// Calls `str::to_uppercase`. Trusted: the result is the one named by
/// `uppercase`. On ASCII text it is the ASCII upper case, as std's
/// documentation and the Unicode case mappings it follows give: `a` to `z`
/// map to `A` to `Z`, and other ASCII characters have no mapping.
#[verifier::external_body]
pub(crate) fn to_uppercase(s: &str) -> (r: String)
    ensures
        r@ == uppercase(s@),
        is_ascii_text(s@) ==> r@ == ascii_upper(s@),
{
    s.to_uppercase()
}

// ---------------------------------------------------------------------------
// rand
// ---------------------------------------------------------------------------

/// Picks an element with `rand::Rng::choose` on `rand::thread_rng()`.
/// Trusted, from the source of `rand` 0.4: `None` exactly for an empty
/// slice, else an element of it. Which element comes back is left open.
#[verifier::external_body]
pub(crate) fn choose_str<'a>(values: &Vec<&'a str>) -> (r: Option<&'a str>)
    ensures
        values@.len() == 0 <==> r is None,
        r matches Some(s) ==> exists|i: int| 0 <= i < values@.len() && values@[i]@ == s@,
{
    rand::thread_rng().choose(values.as_slice()).copied()
}


// ---------------------------------------------------------------------------
// markov
// ---------------------------------------------------------------------------

/// A Markov chain of words (`markov::Chain<String>` of order one), held
/// out of the verifier's sight: the verifier cannot read the declaration of
/// `markov::Chain`, whose parameter is bound by a trait of that crate.
#[verifier::external_body]
pub struct MarkovChain {
    chain: markov::Chain<String>,
}

/// The pieces of a line cut at every space, as `str::split(' ')` cuts it:
/// empty pieces included, and one piece more than there are spaces.
pub open spec fn space_split(s: Seq<char>) -> Seq<Seq<char>>
    decreases s.len(),
{
    if s.len() == 0 {
        seq![Seq::empty()]
    } else {
        let rest = space_split(s.drop_first());
        if s[0] == ' ' {
            seq![Seq::empty()] + rest
        } else {
            rest.update(0, seq![s[0]] + rest[0])
        }
    }
}

/// The tokens that feeding a line adds to a chain: its space-cut pieces.
pub open spec fn line_tokens(line: Seq<char>) -> Set<Seq<char>> {
    space_split(line).to_set()
}

/// The states of a walk through a chain: `start`, then each of the words,
/// then the end (`None`). A state is a token, or `None` for the start and
/// the end of a line.
pub open spec fn walk_states(start: Option<Seq<char>>, words: Seq<Seq<char>>) -> Seq<Option<Seq<char>>> {
    seq![start] + words.map_values(|w: Seq<char>| Some(w)) + seq![None::<Seq<char>>]
}

/// Each pair of consecutive states, counted as often as it occurs.
pub open spec fn state_pairs(states: Seq<Option<Seq<char>>>) -> Multiset<(Option<Seq<char>>, Option<Seq<char>>)>
    decreases states.len(),
{
    if states.len() < 2 {
        Multiset::empty()
    } else {
        state_pairs(states.drop_last()).insert((states[states.len() - 2], states.last()))
    }
}

/// The transitions that feeding a line adds to a chain: from the start to
/// its first space-cut piece, from each piece to the next, and from the
/// last piece to the end.
pub open spec fn line_transitions(line: Seq<char>) -> Multiset<(Option<Seq<char>>, Option<Seq<char>>)> {
    state_pairs(walk_states(None, space_split(line)))
}

/// The words are a walk of the chain's transitions from `start` to the end:
/// each step of `walk_states(start, words)` is a transition the chain has.
pub open spec fn is_walk(
    transitions: Multiset<(Option<Seq<char>>, Option<Seq<char>>)>,
    start: Option<Seq<char>>,
    words: Seq<Seq<char>>,
) -> bool {
    let states = walk_states(start, words);
    forall|i: int| 0 <= i < states.len() - 1 ==> #[trigger] transitions.count((states[i], states[i + 1])) > 0
}

/// The text of a walk from `start`: the start's token, if it has one, then
/// the words of the walk, joined by spaces.
pub open spec fn walk_text(start: Option<Seq<char>>, words: Seq<Seq<char>>) -> Seq<char> {
    match start {
        Some(t) => join_spec(seq![t] + words, " "@),
        None => join_spec(words, " "@),
    }
}

/// A text that a random walk of the chain's transitions from `start` can
/// give.
pub open spec fn babble_from(
    transitions: Multiset<(Option<Seq<char>>, Option<Seq<char>>)>,
    start: Option<Seq<char>>,
    text: Seq<char>,
) -> bool {
    exists|words: Seq<Seq<char>>| is_walk(transitions, start, words) && text == walk_text(start, words)
}

/// The tokens that the chain knows: those that key a state of
/// `markov::Chain` (every token of every line fed into it).
pub uninterp spec fn chain_tokens(chain: MarkovChain) -> Set<Seq<char>>;

/// The chain's transitions, each counted as often as it was fed: the pairs
/// `(a, b)` of states with `b` in the successor counts of `a` in the map of
/// `markov::Chain`, with those counts.
pub uninterp spec fn chain_transitions(chain: MarkovChain) -> Multiset<(Option<Seq<char>>, Option<Seq<char>>)>;

/// Nothing has been fed into the chain (what `Chain::is_empty` returns: the
/// start state has no successor, so no token is known).
pub open spec fn chain_is_empty(chain: MarkovChain) -> bool {
    chain_tokens(chain) == Set::<Seq<char>>::empty()
}

/// A chain of order one (`markov::Chain::new`). Trusted: it knows no token
/// and has no transition.
#[verifier::external_body]
pub(crate) fn chain_new() -> (c: MarkovChain)
    ensures
        chain_tokens(c) == Set::<Seq<char>>::empty(),
        chain_transitions(c) == Multiset::<(Option<Seq<char>>, Option<Seq<char>>)>::empty(),
{
    MarkovChain { chain: markov::Chain::new() }
}

/// Feeds a line into the chain (`Chain::feed_str`). Trusted, from the
/// source of `markov` 1.1: the line is cut with `split(' ')`; each piece
/// then keys a state, and each consecutive pair of the start, the pieces
/// and the end gains one count.
#[verifier::external_body]
pub(crate) fn chain_feed_str(chain: &mut MarkovChain, line: &str)
    ensures
        chain_tokens(*final(chain)) == chain_tokens(*old(chain)).union(line_tokens(line@)),
        chain_transitions(*final(chain)) == chain_transitions(*old(chain)).add(line_transitions(line@)),
{
    chain.chain.feed_str(line);
}

/// A random walk from the start state (`Chain::generate_str`). Trusted, from
/// the source: on an empty chain the call panics (it draws from an empty
/// range), which the precondition leaves out; otherwise each step follows a
/// transition the chain has, until the end, and the tokens are joined by
/// spaces. Which walk comes back depends on chance.
#[verifier::external_body]
pub(crate) fn chain_generate_str(chain: &MarkovChain) -> (r: String)
    requires
        !chain_is_empty(*chain),
    ensures
        babble_from(chain_transitions(*chain), None, r@),
{
    chain.chain.generate_str()
}

/// A random walk from the given token (`Chain::generate_str_from_token`).
/// Trusted, from the source: it does not panic; it returns the empty string
/// when the chain does not know the token, and otherwise the token and
/// the tokens of a walk of the chain's transitions from it to the end,
/// joined by spaces. Which walk comes back depends on chance.
#[verifier::external_body]
pub(crate) fn chain_generate_from_token(chain: &MarkovChain, token: &str) -> (r: String)
    ensures
        !chain_tokens(*chain).contains(token@) ==> r@.len() == 0,
        chain_tokens(*chain).contains(token@) ==> babble_from(chain_transitions(*chain), Some(token@), r@),
{
    chain.chain.generate_str_from_token(token)
}
} // verus!
