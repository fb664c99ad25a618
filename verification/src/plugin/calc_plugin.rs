//! Answers `.cc <expression>` and `.calc <expression>`.

use vstd::prelude::*;
use crate::errors::Error;
use crate::plugin::{Command, Plugin, PluginContext, Reaction, is_privmsg, is_quiet, command_is_privmsg};
use crate::text::{begins_with, chars_begin_with};
use crate::text::{str_chars, rest_of_line, line_from};

verus! {

/// Evaluates the arithmetic expression of `.cc <expression>` or
/// `.calc <expression>`.
pub struct CalcPlugin;

/// The expression of `.cc <expression>` or `.calc <expression>`, as
/// `^\.(cc|calc) (?P<expression>.*)` captures it.
pub open spec fn calc_expression(s: Seq<char>) -> Option<Seq<char>> {
    if begins_with(s, ".cc "@) {
        Some(line_from(s, 4))
    } else if begins_with(s, ".calc "@) {
        Some(line_from(s, 6))
    } else {
        None
    }
}

/// The expression of a calculator command, if the text is one.
pub fn expression_of(text: &str) -> (r: Option<String>)
    ensures
        match calc_expression(text@) {
            Some(e) => r matches Some(x) && x@ == e,
            None => r is None,
        },
{
    let v = str_chars(text);
    proof {
        reveal_strlit(".cc ");
        reveal_strlit(".calc ");
    }
    if chars_begin_with(&v, ".cc ") {
        Some(rest_of_line(&v, 4))
    } else if chars_begin_with(&v, ".calc ") {
        Some(rest_of_line(&v, 6))
    } else {
        None
    }
}

/// What `CalcPlugin` asks for on the message of `context`.
pub open spec fn calc_reaction(context: PluginContext, r: Result<Reaction, Error>) -> bool {
    match context.message.command {
        Command::Privmsg(target, msg) => match calc_expression(msg@) {
            Some(e) => r matches Ok(Reaction::Calculate { target: t, expression: x })
                && t@ == target@ && x@ == e,
            None => is_quiet(r),
        },
        _ => is_quiet(r),
    }
}

impl Plugin for CalcPlugin {
    fn will_handle(&self, command: Command) -> (r: bool)
        ensures
            r == is_privmsg(command),
    {
        command_is_privmsg(&command)
    }

    fn handle(&mut self, context: &PluginContext) -> (r: Result<Reaction, Error>)
        ensures
            calc_reaction(*context, r),
    {
        match &context.message.command {
            Command::Privmsg(target, msg) => match expression_of(msg.as_str()) {
                Some(expression) => Ok(Reaction::Calculate { target: target.clone(), expression }),
                None => Ok(Reaction::Nothing),
            },
            _ => Ok(Reaction::Nothing),
        }
    }
}

} // verus!
