# hank

The logic of Hank, a small IRC bot, written in Verus with its contracts
proved.

- `src/` is the library. Each plugin (`src/plugin/`) decides how the bot
  reacts to a message: it answers at once (`Reaction::Say`), or names what
  must be fetched first (`FetchBtc`, `FetchVideo`, ...), and the library then
  builds the answer from what came back (`btc_reply`, `video_reply`,
  `price_reply`). `src/bot.rs` runs the plugins in order on each message;
  `src/handlers.rs` holds the same reactions as plain functions.
  `src/duration.rs` reads ISO 8601 durations, `src/json.rs` reads the
  JSON answers of the web services (video details, tickers, the coin list)
  by JSON pointer, and `src/keyed.rs` is the map that the crypto plugin
  keeps its coins and prices in.
- `src/outside.rs` and `src/json.rs` hold every call into another crate
  or into a part of `std` without a specification (regex, url, time, rand,
  markov, serde_json, case mapping). Their contracts are trusted; each doc comment says what it
  claims.
- `app/` connects to IRC, reads and appends the log of past messages,
  performs the HTTP requests, evaluates calculator expressions, and reads
  and formats floating-point prices.
- `tests/` runs the library against concrete messages, and compares its
  own matchers with the `regex` crate on the same patterns.

`lalrpop-util` is named in `Cargo.toml` only to switch on its `lexer`
feature, which `calc` needs in order to build.
