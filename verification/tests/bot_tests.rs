use hank::bot::Bot;
use hank::errors::Error;
use hank::plugin::markov_chain_plugin::log_line;
use hank::plugin::{Command, Message, PluginContext, Reaction};

fn privmsg(text: &str) -> PluginContext {
    PluginContext::new(
        String::from("hank"),
        Message::new(
            Some(String::from("dave")),
            Command::Privmsg(String::from("#chan"), String::from(text)),
        ),
    )
}

fn answers(results: &[Result<Reaction, Error>]) -> Vec<String> {
    results
        .iter()
        .filter_map(|r| match r {
            Ok(Reaction::Say { text, .. }) => Some(text.clone()),
            _ => None,
        })
        .collect()
}

#[test]
fn every_message_plugin_sees_a_privmsg() {
    let mut bot = Bot::new(&Vec::new());
    let results = bot.react(&privmsg(".nop"), Ok(()));
    assert_eq!(results.len(), 9);
    assert!(matches!(&results[1], Ok(Reaction::Say { text, .. }) if text == "nop pls"));
    assert_eq!(answers(&results), vec![String::from("nop pls")]);
}

#[test]
fn plugins_answer_in_order() {
    let mut bot = Bot::new(&vec![String::from("sup friend")]);
    let results = bot.react(&privmsg("oh"), Ok(()));
    assert_eq!(answers(&results), vec![String::from("maize")]);
    let results = bot.react(&privmsg(".btc"), Ok(()));
    assert!(matches!(&results[4], Ok(Reaction::FetchBtc { target }) if target == "#chan"));
    let results = bot.react(&privmsg(".eth"), Ok(()));
    assert!(matches!(&results[8], Ok(Reaction::FetchEth { .. })));
    let results = bot.react(&privmsg(".cc 2+2"), Ok(()));
    assert!(matches!(&results[6], Ok(Reaction::Calculate { expression, .. }) if expression == "2+2"));
    let results = bot.react(&privmsg("https://youtu.be/xyz"), Ok(()));
    assert!(matches!(&results[0], Ok(Reaction::FetchVideo { video_id, .. }) if video_id == "xyz"));
}

#[test]
fn a_message_to_the_bot_gets_greeted_and_babbled_at() {
    let mut bot = Bot::new(&vec![String::from("hank is here")]);
    let results = bot.react(&privmsg("hi hank"), Ok(()));
    assert!(matches!(&results[2], Ok(Reaction::Say { text, .. }) if text.ends_with(" dave")));
    assert!(matches!(&results[7], Ok(Reaction::Nothing)));
    let results = bot.react(&privmsg("Hank is"), Ok(()));
    assert!(matches!(&results[7], Ok(Reaction::Say { text, .. }) if text.starts_with("is")));
    assert!(matches!(&results[2], Ok(Reaction::Nothing)));
}

#[test]
fn a_kick_goes_to_the_rejoin_plugin() {
    let mut bot = Bot::new(&Vec::new());
    let context = PluginContext::new(
        String::from("hank"),
        Message::new(None, Command::Kick(String::from("#chan"), String::from("hank"), None)),
    );
    let results = bot.react(&context, Ok(()));
    assert_eq!(results.len(), 1);
    assert!(matches!(&results[0], Ok(Reaction::Rejoin { channel }) if channel == "#chan"));
}

#[test]
fn other_commands_go_nowhere() {
    let mut bot = Bot::new(&Vec::new());
    let context = PluginContext::new(String::from("hank"), Message::new(None, Command::Other));
    assert!(bot.react(&context, Ok(())).is_empty());
}

#[test]
fn log_lines_are_lowercase() {
    assert_eq!(log_line("Hello THERE"), "hello there");
    assert_eq!(log_line("\u{c9}T\u{c9}"), "\u{e9}t\u{e9}");
}

#[test]
fn a_failed_log_write_stops_the_markov_plugin_only() {
    let mut bot = Bot::new(&vec![String::from("hank knows")]);
    let results = bot.react(&privmsg("Hank knows"), Err(String::from("disk full")));
    assert_eq!(results.len(), 9);
    match &results[7] {
        Err(Error::Io(text)) => assert_eq!(text, "disk full"),
        other => panic!("{:?}", other),
    }
    assert!(matches!(&results[1], Ok(Reaction::Nothing)));
    let results = bot.react(&privmsg(".nop"), Err(String::from("disk full")));
    assert_eq!(answers(&results), vec![String::from("nop pls")]);
}
