//! Greets whoever greets the bot.

use vstd::prelude::*;
use vstd::string::*;
use crate::errors::Error;
use crate::outside::{choose_str, regex_is_match, regex_is_match_spec};
use crate::plugin::{Command, Plugin, PluginContext, Reaction, is_privmsg, is_quiet, command_is_privmsg};

verus! {

/// Answers `hi <nickname>` or `h <nickname>` (in any case) with a greeting
/// picked at random, addressed to the sender.
pub struct HiPlugin;

/// The greetings that the bot picks from.
pub open spec fn greetings() -> Seq<Seq<char>> {
    seq!["hi"@, "h"@, "bonjour"@, "sup"@, "ni hao"@, "fuck off"@, "piss off"@, "get fucked"@]
}

/// The regular expression that a greeting to the bot matches:
/// `(?i)h(i?) <nickname>`, with the nickname inserted as it is.
pub open spec fn greeting_pattern(nickname: Seq<char>) -> Seq<char> {
    "(?i)h(i?) "@ + nickname
}

/// The text `greeting sender` for one of the greetings.
pub open spec fn is_greeting_for(text: Seq<char>, sender: Seq<char>) -> bool {
    exists|i: int| 0 <= i < greetings().len() && text == greetings()[i] + " "@ + sender
}

/// The regular expression that a greeting to `nickname` matches.
pub fn greeting_regex(nickname: &str) -> (r: String)
    ensures
        r@ == greeting_pattern(nickname@),
{
    let mut r = String::from_str("(?i)h(i?) ");
    r.append(nickname);
    r
}

/// A greeting picked at random, addressed to `sender`.
pub fn greet(sender: &str) -> (r: String)
    ensures
        is_greeting_for(r@, sender@),
{
    let choices: Vec<&str> = vec!["hi", "h", "bonjour", "sup", "ni hao", "fuck off", "piss off", "get fucked"];
    assert(choices@.map_values(|g: &str| g@) =~= greetings());
    let greeting = match choose_str(&choices) {
        Some(g) => g,
        None => {
            assert(false);
            "hi"
        },
    };
    let mut r = String::from_str(greeting);
    r.append(" ");
    r.append(sender);
    proof {
        let i = choose|i: int| 0 <= i < choices@.len() && choices@[i]@ == greeting@;
        assert(choices@.map_values(|g: &str| g@)[i] == choices@[i]@);
        assert(r@ == greetings()[i] + " "@ + sender@);
    }
    r
}

/// What `HiPlugin` answers to the message of `context`.
pub open spec fn hi_reaction(context: PluginContext, r: Result<Reaction, Error>) -> bool {
    match context.message.command {
        Command::Privmsg(target, msg) => match regex_is_match_spec(greeting_pattern(context.nickname@), msg@) {
            None => r matches Err(Error::Regex(_)),
            Some(false) => is_quiet(r),
            Some(true) => match context.message.source_nickname {
                None => r matches Err(Error::Msg(m)) && m@.len() == 0,
                Some(sender) => r matches Ok(Reaction::Say { target: t, text: x })
                    && t@ == target@ && is_greeting_for(x@, sender@),
            },
        },
        _ => is_quiet(r),
    }
}

impl Plugin for HiPlugin {
    fn will_handle(&self, command: Command) -> (r: bool)
        ensures
            r == is_privmsg(command),
    {
        command_is_privmsg(&command)
    }

    fn handle(&mut self, context: &PluginContext) -> (r: Result<Reaction, Error>)
        ensures
            hi_reaction(*context, r),
    {
        match &context.message.command {
            Command::Privmsg(target, msg) => {
                let pattern = greeting_regex(context.nickname.as_str());
                match regex_is_match(pattern.as_str(), msg.as_str()) {
                    Err(e) => Err(Error::Regex(e)),
                    Ok(false) => Ok(Reaction::Nothing),
                    Ok(true) => match &context.message.source_nickname {
                        None => Err(Error::Msg(String::new())),
                        Some(sender) => Ok(Reaction::Say { target: target.clone(), text: greet(sender.as_str()) }),
                    },
                }
            },
            _ => Ok(Reaction::Nothing),
        }
    }
}

} // verus!
