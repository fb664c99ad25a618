//! Handlers of single messages, each given the sender, the target and the
//! text: the same reactions as the plugins, in the form of plain functions.

use vstd::prelude::*;
use vstd::string::*;
use crate::errors::Error;
use crate::outside::regex_is_match;
use crate::outside::regex_is_match_spec;
use crate::plugin::{Reaction, is_quiet, says};
use crate::plugin::hi_plugin::{greet, greeting_pattern, greeting_regex, is_greeting_for};
use crate::plugin::maize_plugin::{is_oh, matches_oh};
use crate::plugin::youtube_plugin::{video_id, video_id_spec};
use crate::text::{str_chars, text_is};

verus! {

/// What a handler sees: the bot's own nickname, the sender, the target to
/// answer and the text.
#[derive(Debug, Clone)]
pub struct HandlerContext {
    pub nickname: String,
    pub sender: String,
    pub target: String,
    pub message: String,
}

impl HandlerContext {
    pub fn new(nickname: String, sender: String, target: String, message: String) -> (c: HandlerContext)
        ensures
            c.nickname == nickname,
            c.sender == sender,
            c.target == target,
            c.message == message,
    {
        HandlerContext { nickname, sender, target, message }
    }
}

/// Any character but a line break, then `word`, and nothing else
/// (`^.word$`).
pub open spec fn is_any_then(s: Seq<char>, word: Seq<char>) -> bool {
    s.len() == word.len() + 1 && s[0] != '\n' && s.subrange(1, s.len() as int) == word
}

/// Whether the text is any character but a line break followed by `word`.
pub fn matches_any_then(text: &str, word: &str) -> (r: bool)
    ensures
        r == is_any_then(text@, word@),
{
    let v = str_chars(text);
    let w = str_chars(word);
    if v.len() == 0 || v.len() - 1 != w.len() || v[0] == '\n' {
        return false;
    }
    let mut i: usize = 0;
    while i < w.len()
        invariant
            v@.len() == w@.len() + 1,
            v@ == text@,
            w@ == word@,
            i <= w@.len(),
            v@.subrange(1, i + 1) == w@.take(i as int),
        decreases w.len() - i,
    {
        if v[i + 1] != w[i] {
            assert(v@.subrange(1, v@.len() as int)[i as int] != w@[i as int]);
            return false;
        }
        assert(v@.subrange(1, i + 2) =~= v@.subrange(1, i + 1).push(v@[i + 1]));
        assert(w@.take(i + 1) =~= w@.take(i as int).push(w@[i as int]));
        i = i + 1;
    }
    assert(w@.take(w@.len() as int) =~= w@);
    true
}

/// Answers `nop pls` to any character followed by `nop` (`^.nop$`).
pub fn nop_handler(context: &HandlerContext) -> (r: Result<Reaction, Error>)
    ensures
        if is_any_then(context.message@, "nop"@) {
            says(r, context.target@, "nop pls"@)
        } else {
            is_quiet(r)
        },
{
    if matches_any_then(context.message.as_str(), "nop") {
        Ok(Reaction::Say { target: context.target.clone(), text: String::from_str("nop pls") })
    } else {
        Ok(Reaction::Nothing)
    }
}

/// Answers `nm` to `nmu`.
pub fn nm_handler(context: &HandlerContext) -> (r: Result<Reaction, Error>)
    ensures
        if context.message@ == "nmu"@ {
            says(r, context.target@, "nm"@)
        } else {
            is_quiet(r)
        },
{
    if text_is(context.message.as_str(), "nmu") {
        Ok(Reaction::Say { target: context.target.clone(), text: String::from_str("nm") })
    } else {
        Ok(Reaction::Nothing)
    }
}

/// Answers `maize` to one or more `o` followed by one or more `h`.
pub fn maize_handler(context: &HandlerContext) -> (r: Result<Reaction, Error>)
    ensures
        if is_oh(context.message@) {
            says(r, context.target@, "maize"@)
        } else {
            is_quiet(r)
        },
{
    if matches_oh(context.message.as_str()) {
        Ok(Reaction::Say { target: context.target.clone(), text: String::from_str("maize") })
    } else {
        Ok(Reaction::Nothing)
    }
}

/// Answers a greeting to the bot with a greeting to the sender.
pub fn hi_handler(context: &HandlerContext) -> (r: Result<Reaction, Error>)
    ensures
        match regex_is_match_spec(greeting_pattern(context.nickname@), context.message@) {
            None => r matches Err(Error::Regex(_)),
            Some(false) => is_quiet(r),
            Some(true) => r matches Ok(Reaction::Say { target: t, text: x }) && t@ == context.target@
                && is_greeting_for(x@, context.sender@),
        },
{
    let pattern = greeting_regex(context.nickname.as_str());
    match regex_is_match(pattern.as_str(), context.message.as_str()) {
        Err(e) => Err(Error::Regex(e)),
        Ok(false) => Ok(Reaction::Nothing),
        Ok(true) => Ok(Reaction::Say { target: context.target.clone(), text: greet(context.sender.as_str()) }),
    }
}

/// Asks for the details of the YouTube video that the message links to.
pub fn youtube_handler(context: &HandlerContext) -> (r: Result<Reaction, Error>)
    ensures
        match video_id_spec(context.message@) {
            Some(id) => r matches Ok(Reaction::FetchVideo { target: t, video_id: x }) && t@ == context.target@
                && x@ == id,
            None => is_quiet(r),
        },
{
    match video_id(context.message.as_str()) {
        Some(id) => Ok(Reaction::FetchVideo { target: context.target.clone(), video_id: id }),
        None => Ok(Reaction::Nothing),
    }
}

/// Joins again the channel that the message names.
pub fn rejoin_handler(context: &HandlerContext) -> (r: Result<Reaction, Error>)
    ensures
        r matches Ok(Reaction::Rejoin { channel: c }) && c@ == context.message@,
{
    Ok(Reaction::Rejoin { channel: context.message.clone() })
}

/// Asks for the bitcoin ticker on any character followed by `btc`
/// (`^.btc$`).
pub fn btc_handler(context: &HandlerContext) -> (r: Result<Reaction, Error>)
    ensures
        if is_any_then(context.message@, "btc"@) {
            r matches Ok(Reaction::FetchBtc { target: t }) && t@ == context.target@
        } else {
            is_quiet(r)
        },
{
    if matches_any_then(context.message.as_str(), "btc") {
        Ok(Reaction::FetchBtc { target: context.target.clone() })
    } else {
        Ok(Reaction::Nothing)
    }
}

} // verus!
