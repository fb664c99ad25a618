use hank::errors::Error;
use hank::plugin::btc_plugin::{btc_reply, ticker_url as btc_ticker_url, BtcPlugin};
use hank::plugin::calc_plugin::{expression_of, CalcPlugin};
use hank::plugin::crypto_plugin::{change_marker, coinlist_url, price_reply, price_url, CryptoPlugin, PriceChange};
use hank::plugin::eth_plugin::{ticker_url as eth_ticker_url, EthPlugin};
use hank::plugin::hi_plugin::{greet, greeting_regex, HiPlugin};
use hank::plugin::lmgtfy_plugin::{search_terms, LmgtfyPlugin};
use hank::plugin::maize_plugin::{matches_oh, MaizePlugin};
use hank::plugin::markov_chain_plugin::{words_for_bot, MarkovChainPlugin};
use hank::plugin::nop_plugin::NopPlugin;
use hank::plugin::rejoin_plugin::RejoinPlugin;
use hank::plugin::youtube_plugin::{api_url, video_id, video_reply, VideoInfo, YoutubePlugin};
use hank::plugin::{command_is_privmsg, Command, Message, Plugin, PluginContext, Reaction};

const GREETINGS: [&str; 8] = ["hi", "h", "bonjour", "sup", "ni hao", "fuck off", "piss off", "get fucked"];

fn privmsg(target: &str, text: &str) -> PluginContext {
    PluginContext::new(
        String::from("hank"),
        Message::new(
            Some(String::from("alice")),
            Command::Privmsg(String::from(target), String::from(text)),
        ),
    )
}

fn kick(channel: &str) -> PluginContext {
    PluginContext::new(
        String::from("hank"),
        Message::new(
            Some(String::from("op")),
            Command::Kick(String::from(channel), String::from("hank"), None),
        ),
    )
}

fn other() -> PluginContext {
    PluginContext::new(String::from("hank"), Message::new(None, Command::Other))
}

fn said(r: Result<Reaction, Error>) -> (String, String) {
    match r {
        Ok(Reaction::Say { target, text }) => (target, text),
        other => panic!("expected an answer, got {:?}", other),
    }
}

fn quiet(r: Result<Reaction, Error>) -> bool {
    matches!(r, Ok(Reaction::Nothing))
}

fn privmsg_command() -> Command {
    Command::Privmsg(String::from("#c"), String::from("x"))
}

fn kick_command() -> Command {
    Command::Kick(String::from("#c"), String::from("hank"), Some(String::from("bye")))
}

// ---------------------------------------------------------------------------
// will_handle
// ---------------------------------------------------------------------------

#[test]
fn message_plugins_handle_privmsg_only() {
    assert!(NopPlugin.will_handle(privmsg_command()));
    assert!(!NopPlugin.will_handle(kick_command()));
    assert!(!NopPlugin.will_handle(Command::Other));
    assert!(MaizePlugin.will_handle(privmsg_command()));
    assert!(LmgtfyPlugin.will_handle(privmsg_command()));
    assert!(CalcPlugin.will_handle(privmsg_command()));
    assert!(BtcPlugin.will_handle(privmsg_command()));
    assert!(EthPlugin.will_handle(privmsg_command()));
    assert!(YoutubePlugin.will_handle(privmsg_command()));
    assert!(HiPlugin.will_handle(privmsg_command()));
    assert!(!HiPlugin.will_handle(kick_command()));
    assert!(command_is_privmsg(&privmsg_command()));
    assert!(!command_is_privmsg(&Command::Other));
}

#[test]
fn rejoin_plugin_handles_kick_only() {
    assert!(RejoinPlugin.will_handle(kick_command()));
    assert!(!RejoinPlugin.will_handle(privmsg_command()));
    assert!(!RejoinPlugin.will_handle(Command::Other));
}

// ---------------------------------------------------------------------------
// Plugins that answer at once
// ---------------------------------------------------------------------------

#[test]
fn nop_plugin_answers_nop() {
    let (t, x) = said(NopPlugin.handle(&privmsg("#chan", ".nop")));
    assert_eq!(t, "#chan");
    assert_eq!(x, "nop pls");
    assert!(quiet(NopPlugin.handle(&privmsg("#chan", ".nop "))));
    assert!(quiet(NopPlugin.handle(&privmsg("#chan", "xnop"))));
    assert!(quiet(NopPlugin.handle(&other())));
}

#[test]
fn rejoin_plugin_rejoins_the_channel() {
    match RejoinPlugin.handle(&kick("#rust")) {
        Ok(Reaction::Rejoin { channel }) => assert_eq!(channel, "#rust"),
        other => panic!("{:?}", other),
    }
    assert!(quiet(RejoinPlugin.handle(&privmsg("#rust", "hi"))));
}

#[test]
fn maize_plugin_answers_oh() {
    for text in ["oh", "ooh", "ohh", "ooooohhhh"] {
        let (t, x) = said(MaizePlugin.handle(&privmsg("#c", text)));
        assert_eq!(t, "#c");
        assert_eq!(x, "maize");
    }
    for text in ["", "o", "h", "ho", "oho", "Oh", "oh ", " oh", "oh\n"] {
        assert!(quiet(MaizePlugin.handle(&privmsg("#c", text))), "{:?}", text);
    }
    assert!(matches_oh("oooh"));
    assert!(!matches_oh("ooo"));
}

#[test]
fn lmgtfy_plugin_links_the_search() {
    let (t, x) = said(LmgtfyPlugin.handle(&privmsg("#c", ".g rust lang")));
    assert_eq!(t, "#c");
    assert_eq!(x, "\x02lmgtfy:\x0F http://lmgtfy.com/?q=rust%20lang");
    let (_, x) = said(LmgtfyPlugin.handle(&privmsg("#c", ".g how\nnot this")));
    assert_eq!(x, "\x02lmgtfy:\x0F http://lmgtfy.com/?q=how");
    let (_, x) = said(LmgtfyPlugin.handle(&privmsg("#c", ".g ")));
    assert_eq!(x, "\x02lmgtfy:\x0F http://lmgtfy.com/?q=");
    assert!(quiet(LmgtfyPlugin.handle(&privmsg("#c", ".g"))));
    assert!(quiet(LmgtfyPlugin.handle(&privmsg("#c", "x.g rust"))));
    assert!(quiet(LmgtfyPlugin.handle(&other())));
}

#[test]
fn lmgtfy_search_terms() {
    assert_eq!(search_terms(".g a b"), Some(String::from("a b")));
    assert_eq!(search_terms(".G a"), None);
    assert_eq!(search_terms(".g a\nb"), Some(String::from("a")));
}

#[test]
fn calc_plugin_asks_for_the_expression() {
    match CalcPlugin.handle(&privmsg("#c", ".cc 1+2")) {
        Ok(Reaction::Calculate { target, expression }) => {
            assert_eq!(target, "#c");
            assert_eq!(expression, "1+2");
        }
        other => panic!("{:?}", other),
    }
    match CalcPlugin.handle(&privmsg("#c", ".calc 3 * 4")) {
        Ok(Reaction::Calculate { expression, .. }) => assert_eq!(expression, "3 * 4"),
        other => panic!("{:?}", other),
    }
    assert!(quiet(CalcPlugin.handle(&privmsg("#c", ".cc"))));
    assert!(quiet(CalcPlugin.handle(&privmsg("#c", ".c 1"))));
    assert!(quiet(CalcPlugin.handle(&privmsg("#c", "1+2"))));
    assert_eq!(expression_of(".calc 2^8\nrest"), Some(String::from("2^8")));
    assert_eq!(expression_of(".cc "), Some(String::new()));
    assert_eq!(expression_of(".ccc 1"), None);
}

#[test]
fn btc_plugin_asks_for_the_ticker() {
    match BtcPlugin.handle(&privmsg("#c", ".btc")) {
        Ok(Reaction::FetchBtc { target }) => assert_eq!(target, "#c"),
        other => panic!("{:?}", other),
    }
    assert!(quiet(BtcPlugin.handle(&privmsg("#c", ".btc "))));
    assert!(quiet(BtcPlugin.handle(&privmsg("#c", "xbtc"))));
    assert_eq!(btc_ticker_url(), "https://blockchain.info/ticker");
    assert_eq!(btc_reply("$", "43210.12"), "$43210.12");
}

#[test]
fn eth_plugin_asks_for_the_ticker() {
    match EthPlugin.handle(&privmsg("#c", ".eth")) {
        Ok(Reaction::FetchEth { target }) => assert_eq!(target, "#c"),
        other => panic!("{:?}", other),
    }
    assert!(quiet(EthPlugin.handle(&privmsg("#c", ".ETH"))));
    assert_eq!(eth_ticker_url(), "https://api.gdax.com/products/ETH-USD/ticker");
}

// ---------------------------------------------------------------------------
// Greetings
// ---------------------------------------------------------------------------

fn is_greeting_for(text: &str, sender: &str) -> bool {
    GREETINGS.iter().any(|g| text == format!("{} {}", g, sender))
}

#[test]
fn hi_plugin_greets_back() {
    for text in ["hi hank", "h hank", "HI HANK", "oh hank!", "well hi hank there"] {
        let (t, x) = said(HiPlugin.handle(&privmsg("#c", text)));
        assert_eq!(t, "#c");
        assert!(is_greeting_for(&x, "alice"), "{:?}", x);
    }
    for text in ["hey hank", "hank", "hi  hank", "hi bob", ""] {
        assert!(quiet(HiPlugin.handle(&privmsg("#c", text))), "{:?}", text);
    }
}

#[test]
fn hi_plugin_without_a_sender_fails() {
    let context = PluginContext::new(
        String::from("hank"),
        Message::new(None, Command::Privmsg(String::from("#c"), String::from("hi hank"))),
    );
    match HiPlugin.handle(&context) {
        Err(Error::Msg(m)) => assert_eq!(m, ""),
        other => panic!("{:?}", other),
    }
}

#[test]
fn hi_plugin_with_a_broken_nickname_reports_the_pattern() {
    let context = PluginContext::new(
        String::from("ha(nk"),
        Message::new(Some(String::from("a")), Command::Privmsg(String::from("#c"), String::from("hi"))),
    );
    assert!(matches!(HiPlugin.handle(&context), Err(Error::Regex(_))));
}

#[test]
fn greetings_come_from_the_list() {
    assert_eq!(greeting_regex("hank"), "(?i)h(i?) hank");
    for _ in 0..50 {
        let g = greet("bob");
        assert!(is_greeting_for(&g, "bob"), "{:?}", g);
    }
}

// ---------------------------------------------------------------------------
// YouTube
// ---------------------------------------------------------------------------

#[test]
fn youtube_plugin_finds_the_video() {
    match YoutubePlugin.handle(&privmsg("#c", "look https://www.youtube.com/watch?v=dQw4w9WgXcQ")) {
        Ok(Reaction::FetchVideo { target, video_id }) => {
            assert_eq!(target, "#c");
            assert_eq!(video_id, "dQw4w9WgXcQ");
        }
        other => panic!("{:?}", other),
    }
    assert!(quiet(YoutubePlugin.handle(&privmsg("#c", "no video here"))));
    assert!(quiet(YoutubePlugin.handle(&other())));
}

#[test]
fn video_ids() {
    let cases: [(&str, Option<&str>); 14] = [
        ("https://www.youtube.com/watch?v=dQw4w9WgXcQ", Some("dQw4w9WgXcQ")),
        ("https://youtu.be/dQw4w9WgXcQ?t=10", Some("dQw4w9WgXcQ")),
        ("see https://www.youtube.com/embed/abc123#x", Some("abc123")),
        ("http://youtube.com/v/xyz", Some("xyz")),
        ("youtu.be/aaa and youtu.be/bbb", Some("bbb")),
        ("youtu.be/abc def", Some("abc")),
        ("watch?v=abc&list=x", Some("abc")),
        ("youtu.be/", Some("")),
        ("youtuXbe/q", Some("q")),
        ("hello\nyoutu.be/abc", None),
        ("youtu.be/abc\nyoutu.be/def", Some("abc")),
        ("https://example.com/u/\u{e9}/abc", Some("abc")),
        ("https://example.com/u/-/abc", None),
        ("nothing to see", None),
    ];
    for (text, expected) in cases {
        assert_eq!(video_id(text).as_deref(), expected, "{:?}", text);
    }
}

#[test]
fn video_ids_agree_with_the_regular_expression() {
    let re = regex::Regex::new(
        r"^.*((youtu.be/)|(v/)|(/u/\w/)|(embed/)|(watch\?))\??v?=?(?P<video_id>[^#\&\?\s]*).*",
    )
    .unwrap();
    let inputs = [
        "", "v/", "v/v/", "/u/a/b", "/u/ab/c", "/u/\u{3b1}/x", "/u/ /x", "/u/_/x", "embed/?v=1", "watch??v=a",
        "watch?=x", "watch?vv=x", "youtu\nbe/x", "youtu.be/a\u{a0}b", "youtu.be/a\u{2028}b", "youtu.be/a\u{200b}b",
        "a youtu.be/x?y youtu.be/z#w", "embed/x\ny", "xv/1 yv/2", "youtu.be/\u{1f600}", "youtu.be/a&b",
        "watch?v=\u{3000}x", "https://m.youtube.com/watch?feature=share&v=abc", "youtu.be/x\r\ny",
    ];
    for input in inputs {
        let expected = re.captures(input).map(|c| c["video_id"].to_string());
        assert_eq!(video_id(input), expected, "{:?}", input);
    }
}

fn info(duration: &str) -> VideoInfo {
    VideoInfo {
        title: String::from("Never Gonna"),
        duration: String::from(duration),
        definition: String::from("hd"),
        views: String::from("1000"),
        likes: String::from("50"),
        dislikes: String::from("2"),
    }
}

#[test]
fn video_reply_describes_the_video() {
    let r = video_reply(&info("PT3M33S"), "dQw").unwrap();
    assert_eq!(
        r,
        "\x02Never Gonna\x0F [00:03:33] \x02\x0304HD\x0F 1000 views (+\x030350\x0F|-\x03042\x0F) \x02https://youtu.be/dQw\x0F"
    );
}

#[test]
fn video_reply_clock_wraps_at_a_day() {
    let r = video_reply(&info("P1DT1H2M3S"), "x").unwrap();
    assert!(r.contains("[01:02:03]"), "{:?}", r);
    let r = video_reply(&info("PT10H"), "x").unwrap();
    assert!(r.contains("[10:00:00]"), "{:?}", r);
}

#[test]
fn video_reply_refuses_a_bad_length() {
    assert!(matches!(
        video_reply(&info("three minutes"), "x"),
        Err(Error::Duration(hank::duration::ParseError::InvalidDuration(_)))
    ));
    assert!(matches!(
        video_reply(&info("PT3.5M"), "x"),
        Err(Error::Duration(hank::duration::ParseError::ParseIntError(
            hank::duration::IntErrorKind::InvalidDigit
        )))
    ));
}

#[test]
fn youtube_api_address() {
    assert_eq!(
        api_url("abc", "KEY"),
        "https://www.googleapis.com/youtube/v3/videos?part=contentDetails,snippet,statistics&id=abc&key=KEY"
    );
}

// ---------------------------------------------------------------------------
// Markov chain
// ---------------------------------------------------------------------------

#[test]
fn words_for_the_bot() {
    assert_eq!(words_for_bot("Hank hello there"), Some(String::from("hello there")));
    assert_eq!(words_for_bot("hankkk hi"), Some(String::from("hi")));
    assert_eq!(words_for_bot("HAN yo"), Some(String::from("yo")));
    assert_eq!(words_for_bot("Han\u{212a} yo"), Some(String::from("yo")));
    assert_eq!(words_for_bot("Hank "), Some(String::new()));
    assert_eq!(words_for_bot("Hank"), None);
    assert_eq!(words_for_bot("Hanky hi"), None);
    assert_eq!(words_for_bot("hi Hank there"), None);
    assert_eq!(words_for_bot("Hank a\nb"), None);
}

#[test]
fn markov_plugin_answers_when_addressed() {
    let mut plugin = MarkovChainPlugin::new(&vec![String::from("hello world")]);
    let (t, x) = said(plugin.handle(&privmsg("#c", "Hank HELLO")));
    assert_eq!(t, "#c");
    assert!(x.starts_with("hello"), "{:?}", x);
    assert!(quiet(plugin.handle(&privmsg("#c", "just chatting"))));
    assert!(quiet(plugin.handle(&other())));
}

#[test]
fn markov_plugin_learns_in_lowercase() {
    let mut plugin = MarkovChainPlugin::new(&Vec::new());
    assert!(quiet(plugin.handle(&privmsg("#c", "FOO BAR"))));
    let (_, x) = said(plugin.handle(&privmsg("#c", "hank foo")));
    assert!(x.starts_with("foo"), "{:?}", x);
    assert_eq!(x, x.to_lowercase());
}

#[test]
fn markov_plugin_falls_back_to_any_sentence() {
    // the words after the name form one token that was never fed, so the
    // chain makes up a sentence from its start
    let mut plugin = MarkovChainPlugin::new(&Vec::new());
    let (_, x) = said(plugin.handle(&privmsg("#c", "hank two words")));
    assert!(!x.is_empty());
    plugin.process_message("SOMETHING ELSE");
    let (_, y) = said(plugin.handle(&privmsg("#c", "hank zzz yyy")));
    assert!(!y.is_empty());
    assert_eq!(y, y.to_lowercase());
}

// ---------------------------------------------------------------------------
// Crypto prices
// ---------------------------------------------------------------------------

fn coins() -> Vec<(String, Option<String>)> {
    vec![
        (String::from("btc"), Some(String::from("Bitcoin (BTC)"))),
        (String::from("ETH"), Some(String::from("Ethereum (ETH)"))),
        (String::from("doge"), Some(String::from("Dogecoin (DOGE)"))),
    ]
}

fn crypto() -> CryptoPlugin {
    CryptoPlugin::new(vec![String::from("btc"), String::from("eth")], &coins()).unwrap()
}

fn fetch(r: Result<Reaction, Error>) -> (String, String, String) {
    match r {
        Ok(Reaction::FetchPrice { target, symbol, full_name }) => (target, symbol, full_name),
        other => panic!("expected a price request, got {:?}", other),
    }
}

#[test]
fn crypto_command_regex() {
    assert_eq!(crypto().command_regex(), "(?i)^\\.(?P<command>crypto|btc|eth)( (?P<symbol>.*))?");
}

#[test]
fn crypto_plugin_asks_for_prices() {
    let mut p = crypto();
    assert_eq!(
        fetch(p.handle(&privmsg("#c", ".crypto btc"))),
        (String::from("#c"), String::from("BTC"), String::from("Bitcoin (BTC)"))
    );
    assert_eq!(fetch(p.handle(&privmsg("#c", ".btc"))).1, "BTC");
    assert_eq!(fetch(p.handle(&privmsg("#c", ".ETH"))).2, "Ethereum (ETH)");
    assert_eq!(fetch(p.handle(&privmsg("#c", ".crypto DoGe"))).1, "DOGE");
    assert_eq!(fetch(p.handle(&privmsg("#c", ".eth and more"))).1, "ETH");
}

#[test]
fn crypto_plugin_ignores_other_text() {
    let mut p = crypto();
    assert!(quiet(p.handle(&privmsg("#c", ".crypto"))));
    assert!(quiet(p.handle(&privmsg("#c", ".doge"))));
    assert!(quiet(p.handle(&privmsg("#c", "crypto btc"))));
    assert!(quiet(p.handle(&other())));
}

#[test]
fn crypto_plugin_refuses_unknown_coins() {
    let mut p = crypto();
    match p.handle(&privmsg("#c", ".crypto xyz")) {
        Err(Error::Msg(m)) => assert_eq!(m, "Error retrieving coin name"),
        other => panic!("{:?}", other),
    }
    // the command word is compared as written: `.CRYPTO` asks for the coin `CRYPTO`
    match p.handle(&privmsg("#c", ".CRYPTO btc")) {
        Err(Error::Msg(m)) => assert_eq!(m, "Error retrieving coin name"),
        other => panic!("{:?}", other),
    }
}

#[test]
fn crypto_plugin_needs_every_full_name() {
    let coins = vec![
        (String::from("btc"), Some(String::from("Bitcoin"))),
        (String::from("bad"), None),
    ];
    match CryptoPlugin::new(Vec::new(), &coins) {
        Err(Error::Msg(m)) => assert_eq!(m, "Error converting FullName to str"),
        Ok(_) => panic!("accepted a coin without a name"),
        Err(e) => panic!("{:?}", e),
    }
}

#[test]
fn crypto_later_entry_wins() {
    let coins = vec![
        (String::from("btc"), Some(String::from("Old"))),
        (String::from("BTC"), Some(String::from("New"))),
    ];
    let mut p = CryptoPlugin::new(Vec::new(), &coins).unwrap();
    assert_eq!(fetch(p.handle(&privmsg("#c", ".crypto btc"))).2, "New");
}

#[test]
fn price_history() {
    let mut p = crypto();
    assert_eq!(p.record_price("BTC", 100), PriceChange::NoHistory);
    assert_eq!(p.record_price("BTC", 100), PriceChange::NoChange);
    assert_eq!(p.record_price("BTC", 150), PriceChange::Increase);
    assert_eq!(p.record_price("BTC", 120), PriceChange::Decrease);
    // another coin has a history of its own
    assert_eq!(p.record_price("ETH", 120), PriceChange::NoHistory);
    assert_eq!(p.record_price("BTC", 120), PriceChange::NoChange);
}

#[test]
fn price_answers() {
    assert_eq!(change_marker(PriceChange::Increase), "\x0303\u{25B2}\x0F");
    assert_eq!(change_marker(PriceChange::Decrease), "\x0304\u{25BC}\x0F");
    assert_eq!(change_marker(PriceChange::NoChange), "\x0314\u{2014}\x0F");
    assert_eq!(change_marker(PriceChange::NoHistory), "");
    assert_eq!(
        price_reply("Bitcoin (BTC)", "43,210.12", PriceChange::Increase),
        "Bitcoin (BTC): $43,210.12 \x0303\u{25B2}\x0F"
    );
    assert_eq!(price_reply("Ethereum (ETH)", "1.00", PriceChange::NoHistory), "Ethereum (ETH): $1.00 ");
}

#[test]
fn crypto_addresses() {
    assert_eq!(coinlist_url(), "https://min-api.cryptocompare.com/data/all/coinlist");
    assert_eq!(price_url("BTC"), "https://min-api.cryptocompare.com/data/price?fsym=BTC&tsyms=USD");
}

// ---------------------------------------------------------------------------
// The fixed patterns, compared with the `regex` crate
// ---------------------------------------------------------------------------

const SAMPLES: [&str; 30] = [
    "", "o", "h", "oh", "ooh", "ohh", "oho", "Oh", "oh\n", ".cc", ".cc 1", ".calc 2*3", ".calc", ".cc \n1",
    ".ccalc 1", ".g", ".g x y", ".g \u{e9}", ".G x", ".g a\nb", "Hank hi", "hank", "HANKKK yo", "Han\u{212a} x",
    "Hanky x", "Hank a\nb", "Hank ", " Hank x", "hank\u{a0}x", "han x",
];

fn capture(pattern: &str, text: &str, group: &str) -> Option<String> {
    regex::Regex::new(pattern)
        .unwrap()
        .captures(text)
        .map(|c| c.name(group).map(|m| m.as_str().to_string()).unwrap_or_default())
}

#[test]
fn matchers_agree_with_the_regular_expressions() {
    let maize = regex::Regex::new(r"^[o]+[h]+$").unwrap();
    for text in SAMPLES {
        assert_eq!(matches_oh(text), maize.is_match(text), "maize {:?}", text);
        assert_eq!(
            expression_of(text),
            capture(r"^\.(cc|calc) (?P<expression>.*)", text, "expression"),
            "calc {:?}",
            text
        );
        assert_eq!(
            search_terms(text),
            capture(r"^\.g (?P<search_term>.*)", text, "search_term"),
            "lmgtfy {:?}",
            text
        );
        assert_eq!(
            words_for_bot(text),
            capture(r"(?i)^Hank*? (?P<message>.*)$", text, "message"),
            "markov {:?}",
            text
        );
    }
}

// ---------------------------------------------------------------------------
// Reading the web services' JSON answers
// ---------------------------------------------------------------------------

use hank::plugin::btc_plugin::btc_ticker;
use hank::plugin::crypto_plugin::coin_entries;
use hank::plugin::eth_plugin::eth_price_text;
use hank::plugin::youtube_plugin::video_info;

const VIDEO_BODY: &str = r#"{"items": [{"snippet": {"title": "Never Gonna"},
  "contentDetails": {"duration": "PT3M33S", "definition": "hd"},
  "statistics": {"viewCount": "1000", "likeCount": "50", "dislikeCount": "2"}}]}"#;

#[test]
fn video_info_reads_the_first_item() {
    let info = video_info(VIDEO_BODY).unwrap();
    assert_eq!(info.title, "Never Gonna");
    assert_eq!(info.duration, "PT3M33S");
    assert_eq!(info.definition, "hd");
    assert_eq!(info.views, "1000");
    assert_eq!(info.likes, "50");
    assert_eq!(info.dislikes, "2");
    assert_eq!(
        video_reply(&info, "dQw").unwrap(),
        "\x02Never Gonna\x0F [00:03:33] \x02\x0304HD\x0F 1000 views (+\x030350\x0F|-\x03042\x0F) \x02https://youtu.be/dQw\x0F"
    );
}

#[test]
fn video_info_failures() {
    assert!(matches!(video_info("not json"), Err(Error::Json(_))));
    // no item: indexing gives null, which is no string
    match video_info(r#"{"items": []}"#) {
        Err(Error::Json(m)) => assert_eq!(m, "invalid type: null, expected a string"),
        other => panic!("{:?}", other),
    }
    // an object under `items` is no list of items, even with a key "0"
    let keyed = VIDEO_BODY.replacen("[", r#"{"0": "#, 1).replacen("}}]", "}}}", 1);
    assert!(matches!(video_info(&keyed), Err(Error::Json(_))), "{:?}", keyed);
    let numeric_likes = VIDEO_BODY.replace(r#""likeCount": "50""#, r#""likeCount": 50"#);
    match video_info(&numeric_likes) {
        Err(Error::Json(m)) => assert_eq!(m, "invalid type: integer `50`, expected a string"),
        other => panic!("{:?}", other),
    }
}

#[test]
fn btc_ticker_reads_symbol_and_price() {
    let body = r#"{"USD": {"15m": 1.5, "last": 43210.12, "symbol": "$"}, "EUR": {"last": 1, "symbol": "E"}}"#;
    assert_eq!(btc_ticker(body).unwrap(), (String::from("$"), String::from("43210.12")));
    assert_eq!(btc_ticker(r#"{"USD": {"symbol": "$"}}"#).unwrap(), (String::from("$"), String::from("null")));
    match btc_ticker(r#"{"USD": {"last": 1}}"#) {
        Err(Error::Msg(m)) => assert_eq!(m, ""),
        other => panic!("{:?}", other),
    }
    assert!(matches!(btc_ticker("<html>"), Err(Error::Json(_))));
}

#[test]
fn eth_price_text_reads_the_price_string() {
    assert_eq!(eth_price_text(r#"{"price": "1834.55", "size": "0.1"}"#).unwrap(), "1834.55");
    assert!(matches!(eth_price_text(r#"{"price": 1834.55}"#), Err(Error::Msg(_))));
    assert!(matches!(eth_price_text(""), Err(Error::Json(_))));
}

#[test]
fn coin_list_entries() {
    let body = r#"{"Data": {"ETH": {"FullName": "Ethereum (ETH)"}, "BTC": {"FullName": "Bitcoin (BTC)"}, "X": {"Id": 1}}}"#;
    let mut entries = coin_entries(body).unwrap();
    entries.sort();
    assert_eq!(
        entries,
        vec![
            (String::from("BTC"), Some(String::from("Bitcoin (BTC)"))),
            (String::from("ETH"), Some(String::from("Ethereum (ETH)"))),
            (String::from("X"), None),
        ]
    );
    assert_eq!(coin_entries(r#"{"Response": "Error"}"#).unwrap(), Vec::new());
    assert!(matches!(coin_entries("nope"), Err(Error::Json(_))));
}

#[test]
fn crypto_plugin_from_the_coin_list() {
    let body = r#"{"Data": {"eth": {"FullName": "Ethereum (ETH)"}, "BTC": {"FullName": "Bitcoin (BTC)"}}}"#;
    let mut p = CryptoPlugin::from_coinlist(vec![String::from("btc")], body).unwrap();
    assert!(p.knows_coin("ETH"));
    assert!(!p.knows_coin("eth"));
    assert_eq!(fetch(p.handle(&privmsg("#c", ".btc"))).2, "Bitcoin (BTC)");
    match CryptoPlugin::from_coinlist(Vec::new(), r#"{"Data": {"X": {}}}"#) {
        Err(Error::Msg(m)) => assert_eq!(m, "Error converting FullName to str"),
        Ok(_) => panic!("accepted a coin without a name"),
        Err(e) => panic!("{:?}", e),
    }
    assert!(matches!(CryptoPlugin::from_coinlist(Vec::new(), "]"), Err(Error::Json(_))));
}

#[test]
fn markov_plugin_after_a_failed_log_write() {
    let mut plugin = MarkovChainPlugin::new(&Vec::new());
    match plugin.handle_logged(&privmsg("#c", "Hank hi"), Err(String::from("no log"))) {
        Err(Error::Io(m)) => assert_eq!(m, "no log"),
        other => panic!("{:?}", other),
    }
    let (_, x) = said(plugin.handle_logged(&privmsg("#c", "Hank hi"), Ok(())));
    assert!(x.starts_with("hi"), "{:?}", x);
    assert!(quiet(plugin.handle_logged(&other(), Err(String::from("no log")))));
}

#[test]
fn error_texts() {
    assert_eq!(Error::Msg(String::from("m")).text(), "m");
    assert_eq!(Error::Json(String::from("eof")).text(), "eof");
    assert_eq!(
        Error::Duration(hank::duration::ParseError::ParseIntError(hank::duration::IntErrorKind::InvalidDigit)).text(),
        "invalid digit found in string"
    );
    assert_eq!(
        Error::Duration(hank::duration::ParseError::ParseIntError(hank::duration::IntErrorKind::Empty)).text(),
        "".parse::<i64>().unwrap_err().to_string()
    );
    assert_eq!(
        Error::Duration(hank::duration::ParseError::ParseIntError(hank::duration::IntErrorKind::PosOverflow)).text(),
        "99999999999999999999".parse::<i64>().unwrap_err().to_string()
    );
    assert_eq!(
        Error::Duration(hank::duration::ParseError::ParseIntError(hank::duration::IntErrorKind::NegOverflow)).text(),
        "-99999999999999999999".parse::<i64>().unwrap_err().to_string()
    );
}

#[test]
fn case_variants_ask_for_one_coin() {
    let mut p = crypto();
    let a = fetch(p.handle(&privmsg("#c", ".crypto btc")));
    let b = fetch(p.handle(&privmsg("#c", ".crypto Btc")));
    let c = fetch(p.handle(&privmsg("#c", ".BtC")));
    assert_eq!(a.1, "BTC");
    assert_eq!(a, b);
    assert_eq!(a, c);
    assert!(p.knows_coin(&a.1));
    assert_eq!(p.record_price(&a.1, 5), PriceChange::NoHistory);
    assert_eq!(p.record_price(&b.1, 5), PriceChange::NoChange);
}

#[test]
fn markov_answers_walk_the_learned_transitions() {
    // the chain knows `x y z` from the log, then `hank x` from the message:
    // from `x` the walk goes on to `y` (then `z`) or ends
    for _ in 0..20 {
        let mut plugin = MarkovChainPlugin::new(&vec![String::from("x y z")]);
        let (_, text) = said(plugin.handle(&privmsg("#c", "Hank x")));
        assert!(text == "x y z" || text == "x", "{:?}", text);
    }
    // an unknown token: the walk starts at the start of a line
    for _ in 0..20 {
        let mut plugin = MarkovChainPlugin::new(&vec![String::from("p q")]);
        let (_, text) = said(plugin.handle(&privmsg("#c", "hank r s")));
        assert!(text == "p q" || text == "hank r s", "{:?}", text);
    }
}
