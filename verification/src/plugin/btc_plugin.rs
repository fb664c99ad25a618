//! Answers `.btc` with the bitcoin price in US dollars.

use vstd::prelude::*;
use vstd::string::*;
use crate::errors::Error;
use crate::json::{json_string, json_string_at, json_text, json_text_at};
use crate::plugin::{Command, Plugin, PluginContext, Reaction, is_privmsg, is_quiet, command_is_privmsg};
use crate::text::{text_is};

verus! {

/// Answers `.btc` with the last bitcoin price from the blockchain.info ticker.
pub struct BtcPlugin;

/// The ticker address that `.btc` reads.
pub fn ticker_url() -> (r: String)
    ensures
        r@ == "https://blockchain.info/ticker"@,
{
    String::from_str("https://blockchain.info/ticker")
}

/// The answer to `.btc`: the currency symbol of the ticker's `USD` entry
/// followed by its `last` price as the ticker writes it.
pub fn btc_reply(symbol: &str, last: &str) -> (r: String)
    ensures
        r@ == symbol@ + last@,
{
    let mut r = String::from_str(symbol);
    r.append(last);
    r
}

/// What `BtcPlugin` asks for on the message of `context`.
pub open spec fn btc_reaction(context: PluginContext, r: Result<Reaction, Error>) -> bool {
    match context.message.command {
        Command::Privmsg(target, msg) => if msg@ == ".btc"@ {
            r matches Ok(Reaction::FetchBtc { target: t }) && t@ == target@
        } else {
            is_quiet(r)
        },
        _ => is_quiet(r),
    }
}

/// What the ticker's answer `body` gives for `.btc`: the currency symbol of
/// its `USD` entry, and its `last` price written as JSON (`null` when there
/// is none, which is what indexing a JSON value with a missing key gives). A
/// body that is not JSON gives `Error::Json`; an entry without a symbol
/// string gives an empty message.
pub fn btc_ticker(body: &str) -> (r: Result<(String, String), Error>)
    ensures
        match json_string_at(body@, "/USD/symbol"@) {
            None => r matches Err(Error::Json(_)),
            Some(None) => r matches Err(Error::Msg(m)) && m@.len() == 0,
            Some(Some(symbol)) => match json_text_at(body@, "/USD/last"@) {
                None => r matches Err(Error::Json(_)),
                Some(None) => r matches Ok((s, l)) && s@ == symbol && l@ == "null"@,
                Some(Some(last)) => r matches Ok((s, l)) && s@ == symbol && l@ == last,
            },
        },
{
    let symbol = match json_string(body, "/USD/symbol") {
        Err(e) => return Err(Error::Json(e)),
        Ok(None) => return Err(Error::Msg(String::new())),
        Ok(Some(s)) => s,
    };
    match json_text(body, "/USD/last") {
        Err(e) => Err(Error::Json(e)),
        Ok(None) => Ok((symbol, String::from_str("null"))),
        Ok(Some(last)) => Ok((symbol, last)),
    }
}

impl Plugin for BtcPlugin {
    fn will_handle(&self, command: Command) -> (r: bool)
        ensures
            r == is_privmsg(command),
    {
        command_is_privmsg(&command)
    }

    fn handle(&mut self, context: &PluginContext) -> (r: Result<Reaction, Error>)
        ensures
            btc_reaction(*context, r),
    {
        match &context.message.command {
            Command::Privmsg(target, msg) => {
                if text_is(msg.as_str(), ".btc") {
                    Ok(Reaction::FetchBtc { target: target.clone() })
                } else {
                    Ok(Reaction::Nothing)
                }
            },
            _ => Ok(Reaction::Nothing),
        }
    }
}

} // verus!
