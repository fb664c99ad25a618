//! Plugins: each looks at an incoming IRC message and decides how the bot
//! reacts.

use vstd::prelude::*;
use vstd::string::*;
use crate::errors::Error;

pub mod rejoin_plugin;
pub mod nop_plugin;
pub mod maize_plugin;
pub mod lmgtfy_plugin;
pub mod calc_plugin;
pub mod btc_plugin;
pub mod eth_plugin;
pub mod youtube_plugin;
pub mod hi_plugin;
pub mod markov_chain_plugin;
pub mod crypto_plugin;

verus! {

/// The IRC commands that the plugins tell apart.
#[derive(Debug, Clone, PartialEq, Eq)]
pub enum Command {
    /// `PRIVMSG target text`.
    Privmsg(String, String),
    /// `KICK channel user comment`.
    Kick(String, String, Option<String>),
    /// Any other command.
    Other,
}

/// An incoming IRC message: the nickname of its source, when its prefix
/// names one, and its command.
#[derive(Debug, Clone)]
pub struct Message {
    pub source_nickname: Option<String>,
    pub command: Command,
}

impl Message {
    pub fn new(source_nickname: Option<String>, command: Command) -> (m: Message)
        ensures
            m.source_nickname == source_nickname,
            m.command == command,
    {
        Message { source_nickname, command }
    }
}

/// What a plugin sees: the bot's own nickname and the message.
#[derive(Debug, Clone)]
pub struct PluginContext {
    pub nickname: String,
    pub message: Message,
}

impl PluginContext {
    pub fn new(nickname: String, message: Message) -> (c: PluginContext)
        ensures
            c.nickname == nickname,
            c.message == message,
    {
        PluginContext { nickname, message }
    }
}

/// What the bot does in answer to a message. The variants that fetch data
/// name what to fetch; the plugin then builds the answer from what came back.
#[derive(Debug, Clone)]
pub enum Reaction {
    /// Nothing.
    Nothing,
    /// Send `text` to `target`.
    Say { target: String, text: String },
    /// Wait two seconds, then join `channel` again.
    Rejoin { channel: String },
    /// Fetch the bitcoin ticker, then answer `target`.
    FetchBtc { target: String },
    /// Fetch the ether ticker, then answer `target`.
    FetchEth { target: String },
    /// Fetch the USD price of the coin `symbol`, then answer `target`.
    FetchPrice { target: String, symbol: String, full_name: String },
    /// Fetch the details of a YouTube video, then answer `target`.
    FetchVideo { target: String, video_id: String },
    /// Evaluate an arithmetic expression, then answer `target`.
    Calculate { target: String, expression: String },
}

/// The bot sends `text` to `target`.
pub open spec fn says(r: Result<Reaction, Error>, target: Seq<char>, text: Seq<char>) -> bool {
    r matches Ok(Reaction::Say { target: t, text: x }) && t@ == target && x@ == text
}

/// The bot does nothing.
pub open spec fn is_quiet(r: Result<Reaction, Error>) -> bool {
    r matches Ok(Reaction::Nothing)
}

/// The command is a `PRIVMSG`.
pub open spec fn is_privmsg(c: Command) -> bool {
    c is Privmsg
}

/// A plugin of the bot.
pub trait Plugin {
    /// Whether the plugin looks at messages with this command.
    fn will_handle(&self, command: Command) -> bool;

    /// How the bot reacts to the message.
    fn handle(&mut self, context: &PluginContext) -> Result<Reaction, Error>;
}

/// Whether the command is a `PRIVMSG`.
pub fn command_is_privmsg(command: &Command) -> (r: bool)
    ensures
        r == is_privmsg(*command),
{
    match command {
        Command::Privmsg(_, _) => true,
        _ => false,
    }
}

} // verus!
