//! Answers `.eth` with the ether price in US dollars.

use vstd::prelude::*;
use vstd::string::*;
use crate::errors::Error;
use crate::json::{json_string, json_string_at};
use crate::plugin::{Command, Plugin, PluginContext, Reaction, is_privmsg, is_quiet, command_is_privmsg};
use crate::text::{text_is};

verus! {

/// Answers `.eth` with the ETH-USD price from the GDAX ticker.
pub struct EthPlugin;

/// The ticker address that `.eth` reads.
pub fn ticker_url() -> (r: String)
    ensures
        r@ == "https://api.gdax.com/products/ETH-USD/ticker"@,
{
    String::from_str("https://api.gdax.com/products/ETH-USD/ticker")
}

/// What `EthPlugin` asks for on the message of `context`.
pub open spec fn eth_reaction(context: PluginContext, r: Result<Reaction, Error>) -> bool {
    match context.message.command {
        Command::Privmsg(target, msg) => if msg@ == ".eth"@ {
            r matches Ok(Reaction::FetchEth { target: t }) && t@ == target@
        } else {
            is_quiet(r)
        },
        _ => is_quiet(r),
    }
}

/// The price text of the ticker's answer `body` for `.eth` (its `price`
/// string, which the caller reads as a number). A body that is not JSON
/// gives `Error::Json`; an answer without a price string gives an empty
/// message.
pub fn eth_price_text(body: &str) -> (r: Result<String, Error>)
    ensures
        match json_string_at(body@, "/price"@) {
            None => r matches Err(Error::Json(_)),
            Some(None) => r matches Err(Error::Msg(m)) && m@.len() == 0,
            Some(Some(price)) => r matches Ok(p) && p@ == price,
        },
{
    match json_string(body, "/price") {
        Err(e) => Err(Error::Json(e)),
        Ok(None) => Err(Error::Msg(String::new())),
        Ok(Some(p)) => Ok(p),
    }
}

impl Plugin for EthPlugin {
    fn will_handle(&self, command: Command) -> (r: bool)
        ensures
            r == is_privmsg(command),
    {
        command_is_privmsg(&command)
    }

    fn handle(&mut self, context: &PluginContext) -> (r: Result<Reaction, Error>)
        ensures
            eth_reaction(*context, r),
    {
        match &context.message.command {
            Command::Privmsg(target, msg) => {
                if text_is(msg.as_str(), ".eth") {
                    Ok(Reaction::FetchEth { target: target.clone() })
                } else {
                    Ok(Reaction::Nothing)
                }
            },
            _ => Ok(Reaction::Nothing),
        }
    }
}

} // verus!
