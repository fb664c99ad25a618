//! Answers `.nop`.

use vstd::prelude::*;
use vstd::string::*;
use crate::errors::Error;
use crate::plugin::{Command, Plugin, PluginContext, Reaction, is_privmsg, is_quiet, says, command_is_privmsg};
use crate::text::{text_is};

verus! {

/// Answers `nop pls` to the message `.nop`.
pub struct NopPlugin;

/// What `NopPlugin` answers to the message of `context`.
pub open spec fn nop_reaction(context: PluginContext, r: Result<Reaction, Error>) -> bool {
    match context.message.command {
        Command::Privmsg(target, msg) => if msg@ == ".nop"@ {
            says(r, target@, "nop pls"@)
        } else {
            is_quiet(r)
        },
        _ => is_quiet(r),
    }
}

impl Plugin for NopPlugin {
    fn will_handle(&self, command: Command) -> (r: bool)
        ensures
            r == is_privmsg(command),
    {
        command_is_privmsg(&command)
    }

    fn handle(&mut self, context: &PluginContext) -> (r: Result<Reaction, Error>)
        ensures
            nop_reaction(*context, r),
    {
        match &context.message.command {
            Command::Privmsg(target, msg) => {
                if text_is(msg.as_str(), ".nop") {
                    Ok(Reaction::Say { target: target.clone(), text: String::from_str("nop pls") })
                } else {
                    Ok(Reaction::Nothing)
                }
            },
            _ => Ok(Reaction::Nothing),
        }
    }
}

} // verus!
