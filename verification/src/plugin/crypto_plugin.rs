//! Tells the USD price of crypto coins, and how it moved since last asked.

use vstd::prelude::*;
use vstd::string::*;
use crate::errors::Error;
use crate::json::{entry_view, json_entries, json_entries_at};
use crate::keyed::KeyedList;
use crate::outside::{ascii_upper, is_ascii_text, lemma_ascii_upper_idempotent, regex_named_capture, regex_capture_spec,
    capture_view, to_uppercase, uppercase};
use crate::plugin::{Command, Plugin, PluginContext, Reaction, is_privmsg, is_quiet, command_is_privmsg};
use crate::text::{join, join_spec, text_is};

verus! {

/// How a price compares with the one seen last time for the same coin.
#[derive(Debug, Clone, Copy, PartialEq, Eq, Structural)]
pub enum PriceChange {
    Increase,
    Decrease,
    NoChange,
    NoHistory,
}

/// Answers `.crypto <symbol>`, and `.<symbol>` for the symbols of the
/// watchlist, with the coin's full name, its price in US dollars and an
/// arrow that tells how the price moved since it was last asked for.
///
/// Prices are kept as keys that order as the prices do (the caller turns
/// each price into its key), so that the plugin compares them exactly.
pub struct CryptoPlugin {
    watchlist: Vec<String>,
    coinlist: KeyedList<String>,
    prices: KeyedList<u64>,
}

/// The coins that a list of `(symbol, full name)` entries makes: each
/// symbol in upper case names its full name, a later entry replacing an
/// earlier one for the same symbol.
pub open spec fn coin_names(coins: Seq<(Seq<char>, Option<Seq<char>>)>) -> Map<Seq<char>, Seq<char>>
    decreases coins.len(),
{
    if coins.len() == 0 {
        Map::empty()
    } else {
        coin_names(coins.drop_last()).insert(uppercase(coins.last().0), coins.last().1.unwrap())
    }
}

/// Every entry has a full name.
pub open spec fn all_named(coins: Seq<(Seq<char>, Option<Seq<char>>)>) -> bool {
    forall|i: int| 0 <= i < coins.len() ==> coins[i].1 is Some
}

/// The coin list's entries: each symbol under `Data`, with its `FullName`
/// where that is a string.
pub open spec fn coinlist_entries(body: Seq<char>) -> Option<Seq<(Seq<char>, Option<Seq<char>>)>> {
    json_entries_at(body, "/Data"@, "FullName"@)
}

/// The regular expression of the plugin's commands:
/// `(?i)^\.(?P<command>crypto|<watchlist joined by |>)( (?P<symbol>.*))?`.
pub open spec fn command_pattern(watchlist: Seq<Seq<char>>) -> Seq<char> {
    "(?i)^\\.(?P<command>crypto|"@ + join_spec(watchlist, "|"@) + ")( (?P<symbol>.*))?"@
}

/// The symbol text that a message asks for under the pattern: `None` when
/// the pattern does not compile, `Some(None)` when the message asks for
/// nothing; the symbol group for `.crypto`, else the command itself.
pub open spec fn asked_symbol(pattern: Seq<char>, msg: Seq<char>) -> Option<Option<Seq<char>>> {
    match regex_capture_spec(pattern, msg, "command"@) {
        None => None,
        Some(None) => Some(None),
        Some(Some(None)) => Some(None),
        Some(Some(Some(command))) => if command == "crypto"@ {
            match regex_capture_spec(pattern, msg, "symbol"@) {
                None => None,
                Some(Some(Some(symbol))) => Some(Some(symbol)),
                _ => Some(None),
            }
        } else {
            Some(Some(command))
        },
    }
}

/// The arrow that tells how a price moved (with IRC color codes).
pub open spec fn change_marker_spec(change: PriceChange) -> Seq<char> {
    match change {
        PriceChange::Increase => "\x0303\u{25B2}\x0F"@,
        PriceChange::Decrease => "\x0304\u{25BC}\x0F"@,
        PriceChange::NoChange => "\x0314\u{2014}\x0F"@,
        PriceChange::NoHistory => ""@,
    }
}

/// The last price key recorded for `symbol` in `prices`, if any.
pub open spec fn last_price(prices: Map<Seq<char>, u64>, symbol: Seq<char>) -> Option<u64> {
    if prices.contains_key(symbol) {
        Some(prices[symbol])
    } else {
        None
    }
}

/// How the price `key` compares with the last one, `last`.
pub open spec fn compare_prices(last: Option<u64>, key: u64) -> PriceChange {
    match last {
        None => PriceChange::NoHistory,
        Some(l) => if key > l {
            PriceChange::Increase
        } else if key < l {
            PriceChange::Decrease
        } else {
            PriceChange::NoChange
        },
    }
}

impl CryptoPlugin {
    /// The symbols of the watchlist.
    pub closed spec fn watched(&self) -> Seq<Seq<char>> {
        self.watchlist@.map_values(|s: String| s@)
    }

    /// The full name of each known coin, by symbol.
    pub closed spec fn coins(&self) -> Map<Seq<char>, Seq<char>> {
        self.coinlist.view_map().map_values(|s: String| s@)
    }

    /// The last price key seen for each coin.
    pub closed spec fn last_prices(&self) -> Map<Seq<char>, u64> {
        self.prices.view_map()
    }

    /// A price is only ever recorded for a known coin.
    #[verifier::type_invariant]
    closed spec fn inv(self) -> bool {
        self.prices.view_map().dom().subset_of(self.coinlist.view_map().dom())
    }

    /// Whether the coin `symbol` is known.
    pub fn knows_coin(&self, symbol: &str) -> (r: bool)
        ensures
            r == self.coins().contains_key(symbol@),
    {
        self.coinlist.contains_key(symbol)
    }

    /// A plugin that watches the symbols of the watchlist and knows the
    /// coins of the coin list `body` (the answer of the coin list service),
    /// as `new` builds it from the list's entries. A body that is not JSON
    /// gives `Error::Json`.
    pub fn from_coinlist(watchlist: Vec<String>, body: &str) -> (r: Result<CryptoPlugin, Error>)
        ensures
            match coinlist_entries(body@) {
                None => r matches Err(Error::Json(_)),
                Some(cs) => {
                    &&& all_named(cs) ==> (r matches Ok(p) && p.watched() == watchlist@.map_values(|s: String| s@)
                        && p.coins() == coin_names(cs) && p.last_prices() == Map::<Seq<char>, u64>::empty())
                    &&& all_named(cs) ==> forall|i: int| 0 <= i < cs.len() && is_ascii_text(#[trigger] cs[i].0)
                        ==> uppercase(cs[i].0) == ascii_upper(cs[i].0)
                    &&& !all_named(cs) ==> (r matches Err(Error::Msg(m)) && m@ == "Error converting FullName to str"@)
                },
            },
    {
        match coin_entries(body) {
            Err(e) => Err(e),
            Ok(coins) => CryptoPlugin::new(watchlist, &coins),
        }
    }

    /// A plugin that watches the symbols of the watchlist and knows the
    /// coins of the list (the `Data` entries of the coin list: each symbol
    /// with its `FullName`, or `None` where that is not text). An entry
    /// without a full name is an error. No price has been seen yet.
    pub fn new(watchlist: Vec<String>, coins: &Vec<(String, Option<String>)>) -> (r: Result<CryptoPlugin, Error>)
        ensures
            ({
                let cs = coins@.map_values(|e: (String, Option<String>)| entry_view(e));
                &&& all_named(cs) ==> (r matches Ok(p) && p.watched() == watchlist@.map_values(|s: String| s@)
                    && p.coins() == coin_names(cs) && p.last_prices() == Map::<Seq<char>, u64>::empty())
                &&& all_named(cs) ==> forall|i: int| 0 <= i < cs.len() && is_ascii_text(#[trigger] cs[i].0)
                    ==> uppercase(cs[i].0) == ascii_upper(cs[i].0)
                &&& !all_named(cs) ==> (r matches Err(Error::Msg(m)) && m@ == "Error converting FullName to str"@)
            }),
    {
        let ghost cs = coins@.map_values(|e: (String, Option<String>)| entry_view(e));
        let mut coinlist: KeyedList<String> = KeyedList::new();
        let mut i: usize = 0;
        while i < coins.len()
            invariant
                i <= coins@.len(),
                cs == coins@.map_values(|e: (String, Option<String>)| entry_view(e)),
                all_named(cs.take(i as int)),
                forall|j: int| 0 <= j < i && is_ascii_text(#[trigger] cs[j].0) ==> uppercase(cs[j].0)
                    == ascii_upper(cs[j].0),
                coinlist.view_map().map_values(|s: String| s@) == coin_names(cs.take(i as int)),
            decreases coins.len() - i,
        {
            let (symbol, full_name) = &coins[i];
            match full_name {
                None => {
                    assert(cs[i as int].1 is None);
                    return Err(Error::Msg(String::from_str("Error converting FullName to str")));
                },
                Some(name) => {
                    coinlist.insert(to_uppercase(symbol.as_str()), name.clone());
                    proof {
                        assert(cs.take(i + 1).drop_last() =~= cs.take(i as int));
                        assert(cs.take(i + 1).last() == entry_view(coins@[i as int]));
                        assert(coinlist.view_map().map_values(|s: String| s@) =~= coin_names(cs.take(i + 1)));
                    }
                },
            }
            i = i + 1;
        }
        assert(cs.take(coins@.len() as int) =~= cs);
        let prices: KeyedList<u64> = KeyedList::new();
        Ok(CryptoPlugin { watchlist, coinlist, prices })
    }

    /// The regular expression of the plugin's commands.
    pub fn command_regex(&self) -> (r: String)
        ensures
            r@ == command_pattern(self.watched()),
    {
        let mut r = String::from_str("(?i)^\\.(?P<command>crypto|");
        let names = join(&self.watchlist, "|");
        r.append(names.as_str());
        r.append(")( (?P<symbol>.*))?");
        r
    }

    /// Records the price key of the coin and tells how it compares with
    /// the one seen last time.
    pub fn record_price(&mut self, symbol: &str, key: u64) -> (change: PriceChange)
        requires
            old(self).coins().contains_key(symbol@),
        ensures
            final(self).last_prices().dom().subset_of(final(self).coins().dom()),
            change == compare_prices(last_price(old(self).last_prices(), symbol@), key),
            final(self).last_prices() == old(self).last_prices().insert(symbol@, key),
            final(self).coins() == old(self).coins(),
            final(self).watched() == old(self).watched(),
    {
        proof {
            use_type_invariant(&*self);
        }
        let last = match self.prices.get(symbol) {
            Some(l) => Some(*l),
            None => None,
        };
        let mut name = String::new();
        name.append(symbol);
        let mut prices: KeyedList<u64> = KeyedList::new();
        std::mem::swap(&mut prices, &mut self.prices);
        prices.insert(name, key);
        self.prices = prices;
        match last {
            None => PriceChange::NoHistory,
            Some(l) => if key > l {
                PriceChange::Increase
            } else if key < l {
                PriceChange::Decrease
            } else {
                PriceChange::NoChange
            },
        }
    }
}

/// The entries of the coin list `body`: each symbol under `Data`, with its
/// `FullName` where that is a string. A body that is not JSON gives
/// `Error::Json`; a list without `Data` has no entries.
pub fn coin_entries(body: &str) -> (r: Result<Vec<(String, Option<String>)>, Error>)
    ensures
        match coinlist_entries(body@) {
            None => r matches Err(Error::Json(_)),
            Some(cs) => r matches Ok(v) && v@.map_values(|e: (String, Option<String>)| entry_view(e)) == cs,
        },
{
    match json_entries(body, "/Data", "FullName") {
        Err(e) => Err(Error::Json(e)),
        Ok(v) => Ok(v),
    }
}

/// The address of the list of known coins.
pub fn coinlist_url() -> (r: String)
    ensures
        r@ == "https://min-api.cryptocompare.com/data/all/coinlist"@,
{
    String::from_str("https://min-api.cryptocompare.com/data/all/coinlist")
}

/// The address of the USD price of the coin `symbol`.
pub fn price_url(symbol: &str) -> (r: String)
    ensures
        r@ == "https://min-api.cryptocompare.com/data/price?fsym="@ + symbol@ + "&tsyms=USD"@,
{
    let mut r = String::from_str("https://min-api.cryptocompare.com/data/price?fsym=");
    r.append(symbol);
    r.append("&tsyms=USD");
    r
}

/// The arrow that tells how a price moved.
pub fn change_marker(change: PriceChange) -> (r: &'static str)
    ensures
        r@ == change_marker_spec(change),
{
    match change {
        PriceChange::Increase => "\x0303\u{25B2}\x0F",
        PriceChange::Decrease => "\x0304\u{25BC}\x0F",
        PriceChange::NoChange => "\x0314\u{2014}\x0F",
        PriceChange::NoHistory => "",
    }
}

/// The answer: `<full name>: $<price> <arrow>`.
pub fn price_reply(full_name: &str, price: &str, change: PriceChange) -> (r: String)
    ensures
        r@ == full_name@ + ": $"@ + price@ + " "@ + change_marker_spec(change),
{
    let mut r = String::from_str(full_name);
    r.append(": $");
    r.append(price);
    r.append(" ");
    r.append(change_marker(change));
    r
}

/// A coin whose price was never recorded has no history: the first price
/// recorded for it is told as `NoHistory`.
pub proof fn lemma_first_price_has_no_history(prices: Map<Seq<char>, u64>, symbol: Seq<char>, key: u64)
    requires
        !prices.contains_key(symbol),
    ensures
        compare_prices(last_price(prices, symbol), key) == PriceChange::NoHistory,
{
}

/// Recording a price and then the same price again for the same coin tells
/// the second time that nothing changed.
pub proof fn lemma_same_price_again_no_change(prices: Map<Seq<char>, u64>, symbol: Seq<char>, key: u64)
    ensures
        compare_prices(last_price(prices.insert(symbol, key), symbol), key) == PriceChange::NoChange,
{
}

/// Recording a price and then another one for the same coin tells the
/// second time whether it rose or fell against the first.
pub proof fn lemma_second_price_compares_with_first(
    prices: Map<Seq<char>, u64>,
    symbol: Seq<char>,
    first: u64,
    second: u64,
)
    ensures
        compare_prices(last_price(prices.insert(symbol, first), symbol), second) == (if second > first {
            PriceChange::Increase
        } else if second < first {
            PriceChange::Decrease
        } else {
            PriceChange::NoChange
        }),
{
}

/// Recording a price for one coin leaves the history of every other coin
/// as it was.
pub proof fn lemma_other_coins_untouched(
    prices: Map<Seq<char>, u64>,
    symbol: Seq<char>,
    key: u64,
    other: Seq<char>,
)
    requires
        other != symbol,
    ensures
        last_price(prices.insert(symbol, key), other) == last_price(prices, other),
{
}

/// Recording the price of a known coin keeps every recorded price among
/// the known coins.
pub proof fn lemma_prices_stay_among_coins(
    prices: Map<Seq<char>, u64>,
    coins: Map<Seq<char>, Seq<char>>,
    symbol: Seq<char>,
    key: u64,
)
    requires
        prices.dom().subset_of(coins.dom()),
        coins.contains_key(symbol),
    ensures
        prices.insert(symbol, key).dom().subset_of(coins.dom()),
{
}

/// A rise told one way is a fall told the other way: from `a` to `b` is an
/// increase exactly when from `b` to `a` is a decrease.
pub proof fn lemma_rise_mirrors_fall(a: u64, b: u64)
    ensures
        (compare_prices(Some(a), b) == PriceChange::Increase) <==> (compare_prices(Some(b), a)
            == PriceChange::Decrease),
        (compare_prices(Some(a), b) == PriceChange::NoChange) <==> a == b,
{
}

impl Plugin for CryptoPlugin {
    fn will_handle(&self, command: Command) -> (r: bool)
        ensures
            r == is_privmsg(command),
    {
        command_is_privmsg(&command)
    }

    fn handle(&mut self, context: &PluginContext) -> (r: Result<Reaction, Error>)
        ensures
            *final(self) == *old(self),
            match context.message.command {
                Command::Privmsg(target, msg) => match asked_symbol(command_pattern(old(self).watched()), msg@) {
                    None => r matches Err(Error::Regex(_)),
                    Some(None) => is_quiet(r),
                    Some(Some(text)) => {
                        let symbol = uppercase(text);
                        if !old(self).coins().contains_key(symbol) {
                            r matches Err(Error::Msg(m)) && m@ == "Error retrieving coin name"@
                        } else if !old(self).coins().contains_key(uppercase(symbol)) {
                            r matches Err(Error::Msg(m)) && m@ == "Invalid coin symbol"@
                        } else {
                            r matches Ok(Reaction::FetchPrice { target: t, symbol: s, full_name: f })
                                && t@ == target@ && s@ == uppercase(symbol) && f@ == old(self).coins()[symbol]
                                && (is_ascii_text(text) ==> s@ == ascii_upper(text))
                        }
                    },
                },
                _ => is_quiet(r),
            },
    {
        match &context.message.command {
            Command::Privmsg(target, msg) => {
                let pattern = self.command_regex();
                let text = match regex_named_capture(pattern.as_str(), msg.as_str(), "command") {
                    Err(e) => return Err(Error::Regex(e)),
                    Ok(None) => return Ok(Reaction::Nothing),
                    Ok(Some(None)) => return Ok(Reaction::Nothing),
                    Ok(Some(Some(command))) => {
                        if text_is(command.as_str(), "crypto") {
                            match regex_named_capture(pattern.as_str(), msg.as_str(), "symbol") {
                                Err(e) => return Err(Error::Regex(e)),
                                Ok(Some(Some(symbol))) => symbol,
                                Ok(_) => return Ok(Reaction::Nothing),
                            }
                        } else {
                            command
                        }
                    },
                };
                let symbol = to_uppercase(text.as_str());
                let full_name = match self.coinlist.get(symbol.as_str()) {
                    Some(name) => name.clone(),
                    None => return Err(Error::Msg(String::from_str("Error retrieving coin name"))),
                };
                let coin = to_uppercase(symbol.as_str());
                proof {
                    lemma_ascii_upper_idempotent(text@);
                }
                if !self.coinlist.contains_key(coin.as_str()) {
                    return Err(Error::Msg(String::from_str("Invalid coin symbol")));
                }
                Ok(Reaction::FetchPrice { target: target.clone(), symbol: coin, full_name })
            },
            _ => Ok(Reaction::Nothing),
        }
    }
}

} // verus!
