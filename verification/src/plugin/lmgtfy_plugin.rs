//! Answers `.g <terms>` with a link that searches for the terms.

use vstd::prelude::*;
use vstd::string::*;
use crate::errors::Error;
use crate::outside::{parse_url, url_serialization};
use crate::plugin::{Command, Plugin, PluginContext, Reaction, is_privmsg, is_quiet, says, command_is_privmsg};
use crate::text::{begins_with, chars_begin_with};
use crate::text::{str_chars, rest_of_line, line_from};

verus! {

/// Answers `.g <terms>` with a "let me google that for you" link.
pub struct LmgtfyPlugin;

/// The address that searches for `term`, before URL parsing.
pub open spec fn lmgtfy_address(term: Seq<char>) -> Seq<char> {
    "http://lmgtfy.com/?q="@ + term
}

/// The answer that carries the link `url`.
pub open spec fn lmgtfy_text(url: Seq<char>) -> Seq<char> {
    "\x02lmgtfy:\x0F "@ + url
}

/// The search terms of `.g <terms>`, as `^\.g (?P<search_term>.*)` captures them.
pub fn search_terms(text: &str) -> (r: Option<String>)
    ensures
        begins_with(text@, ".g "@) ==> (r matches Some(t) && t@ == line_from(text@, 3)),
        !begins_with(text@, ".g "@) ==> r is None,
{
    let v = str_chars(text);
    if chars_begin_with(&v, ".g ") {
        proof {
            reveal_strlit(".g ");
        }
        Some(rest_of_line(&v, 3))
    } else {
        None
    }
}

/// What `LmgtfyPlugin` answers to the message of `context`.
pub open spec fn lmgtfy_reaction(context: PluginContext, r: Result<Reaction, Error>) -> bool {
    match context.message.command {
        Command::Privmsg(target, msg) => if begins_with(msg@, ".g "@) {
            match url_serialization(lmgtfy_address(line_from(msg@, 3))) {
                Some(url) => says(r, target@, lmgtfy_text(url)),
                None => r matches Err(Error::UrlParse(_)),
            }
        } else {
            is_quiet(r)
        },
        _ => is_quiet(r),
    }
}

impl Plugin for LmgtfyPlugin {
    fn will_handle(&self, command: Command) -> (r: bool)
        ensures
            r == is_privmsg(command),
    {
        command_is_privmsg(&command)
    }

    fn handle(&mut self, context: &PluginContext) -> (r: Result<Reaction, Error>)
        ensures
            lmgtfy_reaction(*context, r),
    {
        match &context.message.command {
            Command::Privmsg(target, msg) => {
                match search_terms(msg.as_str()) {
                    None => Ok(Reaction::Nothing),
                    Some(term) => {
                        let mut address = String::from_str("http://lmgtfy.com/?q=");
                        address.append(term.as_str());
                        match parse_url(address.as_str()) {
                            Err(e) => Err(Error::UrlParse(e)),
                            Ok(url) => {
                                let mut text = String::from_str("\x02lmgtfy:\x0F ");
                                text.append(url.as_str());
                                Ok(Reaction::Say { target: target.clone(), text })
                            },
                        }
                    },
                }
            },
            _ => Ok(Reaction::Nothing),
        }
    }
}

} // verus!
