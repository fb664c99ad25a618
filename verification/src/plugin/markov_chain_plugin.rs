//! Learns from what is said on the channel and babbles when addressed.

use vstd::prelude::*;
use crate::errors::Error;
use crate::outside::{MarkovChain, babble_from, chain_is_empty, chain_tokens, chain_transitions, is_walk, line_tokens,
    line_transitions, space_split, walk_text, chain_new, chain_feed_str, chain_generate_str,
    chain_generate_from_token, lowercase, to_lowercase};
use crate::plugin::{Command, Plugin, PluginContext, Reaction, is_privmsg, is_quiet, command_is_privmsg};
use crate::text::{join_spec, str_chars, no_newline, string_of_range};
use vstd::multiset::Multiset;

verus! {

/// Feeds every message, lowercased, into a Markov chain of words, and
/// answers `Hank <words>` (the name in any case, with any number of `k`)
/// with a sentence that the chain makes up.
pub struct MarkovChainPlugin {
    chain: MarkovChain,
}

pub open spec fn is_letter_h(c: char) -> bool {
    c == 'h' || c == 'H'
}

pub open spec fn is_letter_a(c: char) -> bool {
    c == 'a' || c == 'A'
}

pub open spec fn is_letter_n(c: char) -> bool {
    c == 'n' || c == 'N'
}

/// `k` in any case: `k`, `K`, or the Kelvin sign, which Unicode case
/// folding makes equal to them.
pub open spec fn is_letter_k(c: char) -> bool {
    c == 'k' || c == 'K' || c == '\u{212A}'
}

/// The end of the run of `k` letters from `i`.
pub open spec fn k_run_end(s: Seq<char>, i: int) -> int
    decreases s.len() - i,
{
    if 0 <= i < s.len() && is_letter_k(s[i]) {
        k_run_end(s, i + 1)
    } else {
        i
    }
}

/// What a message addressed to the bot says after the bot's name, as
/// `(?i)^Hank*? (?P<message>.*)$` captures it: the message is `Han`,
/// any number of `k`, a space and a single line, letters in any case.
pub open spec fn addressed_words(s: Seq<char>) -> Option<Seq<char>> {
    if s.len() >= 3 && is_letter_h(s[0]) && is_letter_a(s[1]) && is_letter_n(s[2]) {
        let j = k_run_end(s, 3);
        if j < s.len() && s[j] == ' ' && no_newline(s.subrange(j + 1, s.len() as int)) {
            Some(s.subrange(j + 1, s.len() as int))
        } else {
            None
        }
    } else {
        None
    }
}

proof fn lemma_k_run_end_bounds(s: Seq<char>, i: int)
    requires
        0 <= i <= s.len(),
    ensures
        i <= k_run_end(s, i) <= s.len(),
    decreases s.len() - i,
{
    if i < s.len() && is_letter_k(s[i]) {
        lemma_k_run_end_bounds(s, i + 1);
    }
}

/// What a message addressed to the bot says after the bot's name.
pub fn words_for_bot(text: &str) -> (r: Option<String>)
    ensures
        match addressed_words(text@) {
            Some(w) => r matches Some(x) && x@ == w,
            None => r is None,
        },
{
    let v = str_chars(text);
    let n = v.len();
    if !(n >= 3 && (v[0] == 'h' || v[0] == 'H') && (v[1] == 'a' || v[1] == 'A') && (v[2] == 'n'
        || v[2] == 'N')) {
        return None;
    }
    let mut j: usize = 3;
    while j < n && (v[j] == 'k' || v[j] == 'K' || v[j] == '\u{212A}')
        invariant
            3 <= j <= n == v@.len(),
            k_run_end(v@, 3) == k_run_end(v@, j as int),
        decreases n - j,
    {
        j = j + 1;
    }
    if !(j < n && v[j] == ' ') {
        return None;
    }
    let mut e = j + 1;
    while e < n && v[e] != '\n'
        invariant
            j + 1 <= e <= n == v@.len(),
            no_newline(v@.subrange(j + 1, e as int)),
        decreases n - e,
    {
        assert(v@.subrange(j + 1, e + 1) =~= v@.subrange(j + 1, e as int).push(v@[e as int]));
        e = e + 1;
    }
    if e < n {
        assert(v@.subrange(j + 1, n as int)[e - j - 1] == '\n');
        return None;
    }
    Some(string_of_range(&v, j + 1, n))
}

/// The line that a message adds to the log of past messages: the message
/// in lower case.
pub fn log_line(message: &str) -> (r: String)
    ensures
        r@ == lowercase(message@),
{
    to_lowercase(message)
}

/// The tokens that feeding the lines, in order, adds to a chain.
pub open spec fn lines_tokens(lines: Seq<Seq<char>>) -> Set<Seq<char>>
    decreases lines.len(),
{
    if lines.len() == 0 {
        Set::empty()
    } else {
        lines_tokens(lines.drop_last()).union(line_tokens(lines.last()))
    }
}

/// The transitions that feeding the lines, in order, adds to a chain.
pub open spec fn lines_transitions(lines: Seq<Seq<char>>) -> Multiset<(Option<Seq<char>>, Option<Seq<char>>)>
    decreases lines.len(),
{
    if lines.len() == 0 {
        Multiset::empty()
    } else {
        lines_transitions(lines.drop_last()).add(line_transitions(lines.last()))
    }
}

/// A log of a single line teaches what feeding that line teaches.
pub proof fn lemma_log_of_one_line(line: Seq<char>)
    ensures
        lines_tokens(seq![line]) == line_tokens(line),
        lines_transitions(seq![line]) == line_transitions(line),
{
    let one = seq![line];
    assert(one.drop_last() =~= Seq::<Seq<char>>::empty());
    assert(one.last() == line);
    assert(lines_tokens(one.drop_last()) == Set::<Seq<char>>::empty());
    assert(lines_transitions(one.drop_last()) == Multiset::<(Option<Seq<char>>, Option<Seq<char>>)>::empty());
    assert(lines_tokens(one) == lines_tokens(one.drop_last()).union(line_tokens(line)));
    assert(lines_transitions(one) == lines_transitions(one.drop_last()).add(line_transitions(line)));
    assert(Set::<Seq<char>>::empty().union(line_tokens(line)) =~= line_tokens(line));
    assert(Multiset::<(Option<Seq<char>>, Option<Seq<char>>)>::empty().add(line_transitions(line))
        =~= line_transitions(line));
}

/// A log read in two parts teaches what both parts teach: the tokens of
/// either part, and the transitions of both parts with their counts added.
pub proof fn lemma_log_in_two_parts(a: Seq<Seq<char>>, b: Seq<Seq<char>>)
    ensures
        lines_tokens(a + b) == lines_tokens(a).union(lines_tokens(b)),
        lines_transitions(a + b) == lines_transitions(a).add(lines_transitions(b)),
    decreases b.len(),
{
    if b.len() == 0 {
        assert(a + b =~= a);
        assert(lines_tokens(a).union(Set::<Seq<char>>::empty()) =~= lines_tokens(a));
        assert(lines_transitions(a).add(Multiset::<(Option<Seq<char>>, Option<Seq<char>>)>::empty())
            =~= lines_transitions(a));
    } else {
        lemma_log_in_two_parts(a, b.drop_last());
        assert((a + b).drop_last() =~= a + b.drop_last());
        assert((a + b).last() == b.last());
        assert(lines_tokens(a + b) =~= lines_tokens(a).union(lines_tokens(b)));
        assert(lines_transitions(a + b) =~= lines_transitions(a).add(lines_transitions(b)));
    }
}

/// Every line of the log is learned: its tokens are among the known ones,
/// and each of its transitions is counted at least as often as it occurs
/// in the line.
pub proof fn lemma_every_log_line_learned(lines: Seq<Seq<char>>, i: int)
    requires
        0 <= i < lines.len(),
    ensures
        line_tokens(lines[i]).subset_of(lines_tokens(lines)),
        line_transitions(lines[i]).subset_of(lines_transitions(lines)),
{
    let a = lines.take(i);
    let b = lines.skip(i);
    assert(lines =~= a + b);
    lemma_log_in_two_parts(a, b);
    let c = b.skip(1);
    assert(b =~= seq![lines[i]] + c);
    lemma_log_in_two_parts(seq![lines[i]], c);
    lemma_log_of_one_line(lines[i]);
}

/// A text joined from words is at least as long as its first word.
proof fn lemma_join_first_len(items: Seq<Seq<char>>, sep: Seq<char>)
    requires
        items.len() >= 1,
    ensures
        join_spec(items, sep).len() >= items[0].len(),
    decreases items.len(),
{
    if items.len() > 1 {
        lemma_join_first_len(items.drop_last(), sep);
    }
}

proof fn lemma_space_split_len(s: Seq<char>)
    ensures
        space_split(s).len() >= 1,
    decreases s.len(),
{
    if s.len() > 0 {
        lemma_space_split_len(s.drop_first());
    }
}

/// Every line gives at least one token (the empty line gives the empty
/// token).
proof fn lemma_line_has_token(line: Seq<char>)
    ensures
        line_tokens(line).contains(space_split(line)[0]),
{
    lemma_space_split_len(line);
    assert(space_split(line).contains(space_split(line)[0]));
}

impl MarkovChainPlugin {
    /// The tokens that the plugin's chain knows.
    pub closed spec fn tokens(&self) -> Set<Seq<char>> {
        chain_tokens(self.chain)
    }

    /// The transitions of the plugin's chain, each with its count.
    pub closed spec fn transitions(&self) -> Multiset<(Option<Seq<char>>, Option<Seq<char>>)> {
        chain_transitions(self.chain)
    }

    /// Whether nothing has been fed into the plugin's chain.
    pub open spec fn is_empty(&self) -> bool {
        self.tokens() == Set::<Seq<char>>::empty()
    }

    /// A plugin whose chain has been fed the lines, in order (the lines of
    /// the log of past messages).
    pub fn new(lines: &Vec<String>) -> (p: MarkovChainPlugin)
        ensures
            p.tokens() == lines_tokens(lines@.map_values(|l: String| l@)),
            p.transitions() == lines_transitions(lines@.map_values(|l: String| l@)),
            forall|i: int| 0 <= i < lines@.len() ==> line_transitions(#[trigger] lines@[i]@).subset_of(p.transitions()),
            forall|i: int| 0 <= i < lines@.len() ==> line_tokens(#[trigger] lines@[i]@).subset_of(p.tokens()),
            p.is_empty() <==> lines@.len() == 0,
    {
        let ghost views = lines@.map_values(|l: String| l@);
        let mut chain = chain_new();
        let mut i: usize = 0;
        while i < lines.len()
            invariant
                i <= lines@.len(),
                views == lines@.map_values(|l: String| l@),
                chain_tokens(chain) == lines_tokens(views.take(i as int)),
                chain_transitions(chain) == lines_transitions(views.take(i as int)),
                i > 0 ==> !chain_is_empty(chain),
            decreases lines.len() - i,
        {
            chain_feed_str(&mut chain, lines[i].as_str());
            proof {
                assert(views.take(i + 1).drop_last() =~= views.take(i as int));
                assert(views.take(i + 1).last() == lines@[i as int]@);
                lemma_line_has_token(lines@[i as int]@);
                assert(chain_tokens(chain).contains(space_split(lines@[i as int]@)[0]));
            }
            i = i + 1;
        }
        assert(views.take(lines@.len() as int) =~= views);
        assert forall|i: int| 0 <= i < lines@.len() implies line_transitions(#[trigger] lines@[i]@).subset_of(
            lines_transitions(views),
        ) && line_tokens(lines@[i]@).subset_of(lines_tokens(views)) by {
            assert(views[i] == lines@[i]@);
            lemma_every_log_line_learned(views, i);
        }
        assert(lines@.len() == 0 ==> views =~= Seq::<Seq<char>>::empty());
        MarkovChainPlugin { chain }
    }

    /// Feeds the message, lowercased, into the chain. (The caller appends
    /// the same line, `log_line(message)`, to the log first.)
    pub fn process_message(&mut self, message: &str)
        ensures
            final(self).tokens() == old(self).tokens().union(line_tokens(lowercase(message@))),
            final(self).transitions() == old(self).transitions().add(line_transitions(lowercase(message@))),
            !final(self).is_empty(),
    {
        let line = log_line(message);
        chain_feed_str(&mut self.chain, line.as_str());
        proof {
            lemma_line_has_token(line@);
            assert(self.tokens().contains(space_split(line@)[0]));
        }
    }

    /// How the plugin reacts once the caller has tried to append a
    /// `PRIVMSG` to the log (`logged`): when that failed, it fails with the
    /// error and learns nothing; else it reacts as `handle` does.
    pub fn handle_logged(&mut self, context: &PluginContext, logged: Result<(), String>) -> (r: Result<Reaction, Error>)
        ensures
            match context.message.command {
                Command::Privmsg(_, msg) => match logged {
                    Err(e) => r matches Err(Error::Io(x)) && x@ == e@ && *final(self) == *old(self),
                    Ok(_) => markov_reaction(*context, final(self).tokens(), final(self).transitions(), r)
                        && final(self).tokens() == old(self).tokens().union(line_tokens(lowercase(msg@)))
                        && final(self).transitions() == old(self).transitions().add(
                            line_transitions(lowercase(msg@)),
                        ),
                },
                _ => is_quiet(r) && *final(self) == *old(self),
            },
    {
        match &context.message.command {
            Command::Privmsg(_, _) => match logged {
                Err(e) => Err(Error::Io(e)),
                Ok(_) => self.handle(context),
            },
            _ => Ok(Reaction::Nothing),
        }
    }
}

/// What `MarkovChainPlugin` answers to the message of `context`, its chain
/// knowing `tokens` and `transitions` once the message is fed: when the
/// message is addressed to the bot, a sentence sent to the target, made by a
/// random walk of the chain's transitions. The walk starts from the words
/// after the bot's name, lowercased, when the chain knows them as a token
/// (and that token is not empty); from the start of a line when it does not.
pub open spec fn markov_reaction(
    context: PluginContext,
    tokens: Set<Seq<char>>,
    transitions: Multiset<(Option<Seq<char>>, Option<Seq<char>>)>,
    r: Result<Reaction, Error>,
) -> bool {
    match context.message.command {
        Command::Privmsg(target, msg) => match addressed_words(msg@) {
            Some(w) => r matches Ok(Reaction::Say { target: t, text: x }) && t@ == target@ && {
                let token = lowercase(w);
                &&& (tokens.contains(token) && token.len() > 0 ==> babble_from(transitions, Some(token), x@))
                &&& (!tokens.contains(token) ==> babble_from(transitions, None, x@))
                &&& (babble_from(transitions, Some(token), x@) || babble_from(transitions, None, x@))
            },
            None => is_quiet(r),
        },
        _ => is_quiet(r),
    }
}

impl Plugin for MarkovChainPlugin {
    fn will_handle(&self, command: Command) -> (r: bool)
        ensures
            r == is_privmsg(command),
    {
        command_is_privmsg(&command)
    }

    fn handle(&mut self, context: &PluginContext) -> (r: Result<Reaction, Error>)
        ensures
            markov_reaction(*context, final(self).tokens(), final(self).transitions(), r),
            match context.message.command {
                Command::Privmsg(_, msg) => final(self).tokens() == old(self).tokens().union(
                    line_tokens(lowercase(msg@)),
                ) && final(self).transitions() == old(self).transitions().add(
                    line_transitions(lowercase(msg@)),
                ),
                _ => *final(self) == *old(self),
            },
    {
        match &context.message.command {
            Command::Privmsg(target, msg) => {
                self.process_message(msg.as_str());
                match words_for_bot(msg.as_str()) {
                    None => Ok(Reaction::Nothing),
                    Some(words) => {
                        let token = to_lowercase(words.as_str());
                        let mut response = chain_generate_from_token(&self.chain, token.as_str());
                        if response.as_str().unicode_len() == 0 {
                            proof {
                                if chain_tokens(self.chain).contains(token@) && token@.len() > 0 {
                                    let ws = choose|ws: Seq<Seq<char>>|
                                        is_walk(chain_transitions(self.chain), Some(token@), ws)
                                            && response@ == walk_text(Some(token@), ws);
                                    lemma_join_first_len(seq![token@] + ws, " "@);
                                    assert(false);
                                }
                            }
                            response = chain_generate_str(&self.chain);
                        }
                        Ok(Reaction::Say { target: target.clone(), text: response })
                    },
                }
            },
            _ => Ok(Reaction::Nothing),
        }
    }
}

} // verus!
