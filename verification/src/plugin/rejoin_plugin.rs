//! Joins a channel again after a kick.

use vstd::prelude::*;
use crate::errors::Error;
use crate::plugin::{Command, Plugin, PluginContext, Reaction, is_quiet};

verus! {

/// Joins a channel again, two seconds after the bot was kicked from it.
pub struct RejoinPlugin;

/// The command is a `KICK`.
pub open spec fn is_kick(c: Command) -> bool {
    c is Kick
}

/// What `RejoinPlugin` does on the message of `context`.
pub open spec fn rejoin_reaction(context: PluginContext, r: Result<Reaction, Error>) -> bool {
    match context.message.command {
        Command::Kick(channel, _, _) => r matches Ok(Reaction::Rejoin { channel: c }) && c@ == channel@,
        _ => is_quiet(r),
    }
}

impl Plugin for RejoinPlugin {
    fn will_handle(&self, command: Command) -> (r: bool)
        ensures
            r == is_kick(command),
    {
        match command {
            Command::Kick(_, _, _) => true,
            _ => false,
        }
    }

    fn handle(&mut self, context: &PluginContext) -> (r: Result<Reaction, Error>)
        ensures
            rejoin_reaction(*context, r),
    {
        match &context.message.command {
            Command::Kick(channel, _, _) => Ok(Reaction::Rejoin { channel: channel.clone() }),
            _ => Ok(Reaction::Nothing),
        }
    }
}

} // verus!
