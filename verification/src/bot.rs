//! The bot: the plugins it runs, and the order in which they see each
//! message.

use vstd::prelude::*;
use crate::errors::Error;
use crate::plugin::{Command, Plugin, PluginContext, Reaction};
use crate::plugin::btc_plugin::{BtcPlugin, btc_reaction};
use crate::plugin::calc_plugin::{CalcPlugin, calc_reaction};
use crate::plugin::eth_plugin::{EthPlugin, eth_reaction};
use crate::plugin::hi_plugin::{HiPlugin, hi_reaction};
use crate::plugin::lmgtfy_plugin::{LmgtfyPlugin, lmgtfy_reaction};
use crate::plugin::maize_plugin::{MaizePlugin, maize_reaction};
use crate::plugin::markov_chain_plugin::{MarkovChainPlugin, lines_tokens, lines_transitions, markov_reaction};
use crate::outside::{line_tokens, line_transitions, lowercase};
use vstd::multiset::Multiset;
use crate::plugin::nop_plugin::{NopPlugin, nop_reaction};
use crate::plugin::rejoin_plugin::{RejoinPlugin, rejoin_reaction};
use crate::plugin::youtube_plugin::{YoutubePlugin, youtube_reaction};

verus! {

/// The bot's plugins. A `KICK` goes to the rejoin plugin; a `PRIVMSG` goes,
/// in this order, to the YouTube, nop, hi, maize, bitcoin, lmgtfy,
/// calculator, Markov chain and ether plugins; other commands go nowhere.
pub struct Bot {
    markov: MarkovChainPlugin,
}

impl Bot {
    /// The tokens that the Markov chain knows.
    pub closed spec fn learned(&self) -> Set<Seq<char>> {
        self.markov.tokens()
    }

    /// The transitions of the Markov chain, each with its count.
    pub closed spec fn transitions(&self) -> Multiset<(Option<Seq<char>>, Option<Seq<char>>)> {
        self.markov.transitions()
    }

    /// The bot, with a Markov chain fed the lines of the log of past
    /// messages, in order.
    pub fn new(log_lines: &Vec<String>) -> (b: Bot)
        ensures
            b.learned() == lines_tokens(log_lines@.map_values(|l: String| l@)),
            b.transitions() == lines_transitions(log_lines@.map_values(|l: String| l@)),
    {
        Bot { markov: MarkovChainPlugin::new(log_lines) }
    }

    /// How each plugin that looks at the message reacts, in the order of
    /// the plugins. For a `PRIVMSG`, `logged` tells whether the caller
    /// managed to append the message to the log first: when it did not, the
    /// Markov chain plugin fails with that error and learns nothing.
    pub fn react(&mut self, context: &PluginContext, logged: Result<(), String>) -> (r: Vec<Result<Reaction, Error>>)
        ensures
            match context.message.command {
                Command::Privmsg(_, msg) => {
                    &&& r@.len() == 9
                    &&& youtube_reaction(*context, r@[0])
                    &&& nop_reaction(*context, r@[1])
                    &&& hi_reaction(*context, r@[2])
                    &&& maize_reaction(*context, r@[3])
                    &&& btc_reaction(*context, r@[4])
                    &&& lmgtfy_reaction(*context, r@[5])
                    &&& calc_reaction(*context, r@[6])
                    &&& match logged {
                        Err(e) => r@[7] matches Err(Error::Io(x)) && x@ == e@ && *final(self) == *old(self),
                        Ok(_) => markov_reaction(*context, final(self).learned(), final(self).transitions(), r@[7])
                            && final(self).learned() == old(self).learned().union(line_tokens(lowercase(msg@)))
                            && final(self).transitions() == old(self).transitions().add(
                                line_transitions(lowercase(msg@)),
                            ),
                    }
                    &&& eth_reaction(*context, r@[8])
                },
                Command::Kick(_, _, _) => {
                    &&& r@.len() == 1
                    &&& rejoin_reaction(*context, r@[0])
                    &&& *final(self) == *old(self)
                },
                Command::Other => r@.len() == 0 && *final(self) == *old(self),
            },
    {
        let mut r: Vec<Result<Reaction, Error>> = Vec::new();
        match &context.message.command {
            Command::Privmsg(_, _) => {
                let mut youtube = YoutubePlugin;
                r.push(youtube.handle(context));
                let mut nop = NopPlugin;
                r.push(nop.handle(context));
                let mut hi = HiPlugin;
                r.push(hi.handle(context));
                let mut maize = MaizePlugin;
                r.push(maize.handle(context));
                let mut btc = BtcPlugin;
                r.push(btc.handle(context));
                let mut lmgtfy = LmgtfyPlugin;
                r.push(lmgtfy.handle(context));
                let mut calc = CalcPlugin;
                r.push(calc.handle(context));
                r.push(self.markov.handle_logged(context, logged));
                let mut eth = EthPlugin;
                r.push(eth.handle(context));
            },
            Command::Kick(_, _, _) => {
                let mut rejoin = RejoinPlugin;
                r.push(rejoin.handle(context));
            },
            Command::Other => {},
        }
        r
    }
}

} // verus!
