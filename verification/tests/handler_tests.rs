use hank::errors::Error;
use hank::handlers::{
    btc_handler, hi_handler, maize_handler, matches_any_then, nm_handler, nop_handler, rejoin_handler,
    youtube_handler, HandlerContext,
};
use hank::plugin::Reaction;

fn context(message: &str) -> HandlerContext {
    HandlerContext::new(
        String::from("hank"),
        String::from("carol"),
        String::from("#chan"),
        String::from(message),
    )
}

fn said(r: Result<Reaction, Error>) -> String {
    match r {
        Ok(Reaction::Say { target, text }) => {
            assert_eq!(target, "#chan");
            text
        }
        other => panic!("expected an answer, got {:?}", other),
    }
}

fn quiet(r: Result<Reaction, Error>) -> bool {
    matches!(r, Ok(Reaction::Nothing))
}

#[test]
fn nop_handler_takes_any_first_character() {
    assert_eq!(said(nop_handler(&context(".nop"))), "nop pls");
    assert_eq!(said(nop_handler(&context("xnop"))), "nop pls");
    assert_eq!(said(nop_handler(&context("\u{e9}nop"))), "nop pls");
    assert!(quiet(nop_handler(&context("\nnop"))));
    assert!(quiet(nop_handler(&context("nop"))));
    assert!(quiet(nop_handler(&context("..nop"))));
    assert!(quiet(nop_handler(&context(".nop\n"))));
}

#[test]
fn any_then_agrees_with_the_regular_expression() {
    let re = regex::Regex::new(r"^.nop$").unwrap();
    for text in ["", "n", "nop", ".nop", "xnop", "\nnop", "\rnop", "..nop", ".nopx", ".nop\n", "\u{1f600}nop"] {
        assert_eq!(matches_any_then(text, "nop"), re.is_match(text), "{:?}", text);
    }
}

#[test]
fn nm_handler_answers_nmu() {
    assert_eq!(said(nm_handler(&context("nmu"))), "nm");
    assert!(quiet(nm_handler(&context("nmu "))));
    assert!(quiet(nm_handler(&context("NMU"))));
}

#[test]
fn maize_handler_answers_oh() {
    assert_eq!(said(maize_handler(&context("oooohh"))), "maize");
    assert!(quiet(maize_handler(&context("ho"))));
}

#[test]
fn hi_handler_greets_the_sender() {
    let text = said(hi_handler(&context("hi hank")));
    assert!(text.ends_with(" carol"), "{:?}", text);
    let greeting = &text[..text.len() - " carol".len()];
    assert!(
        ["hi", "h", "bonjour", "sup", "ni hao", "fuck off", "piss off", "get fucked"].contains(&greeting),
        "{:?}",
        greeting
    );
    assert!(quiet(hi_handler(&context("hello there"))));
}

#[test]
fn hi_handler_with_a_broken_nickname() {
    let c = HandlerContext::new(
        String::from("[hank"),
        String::from("carol"),
        String::from("#chan"),
        String::from("hi [hank"),
    );
    assert!(matches!(hi_handler(&c), Err(Error::Regex(_))));
}

#[test]
fn youtube_handler_asks_for_the_video() {
    match youtube_handler(&context("https://youtu.be/abc?t=1")) {
        Ok(Reaction::FetchVideo { target, video_id }) => {
            assert_eq!(target, "#chan");
            assert_eq!(video_id, "abc");
        }
        other => panic!("{:?}", other),
    }
    assert!(quiet(youtube_handler(&context("no link"))));
}

#[test]
fn rejoin_handler_joins_the_message() {
    match rejoin_handler(&context("#rust")) {
        Ok(Reaction::Rejoin { channel }) => assert_eq!(channel, "#rust"),
        other => panic!("{:?}", other),
    }
}

#[test]
fn btc_handler_takes_any_first_character() {
    for text in [".btc", "!btc", "xbtc"] {
        match btc_handler(&context(text)) {
            Ok(Reaction::FetchBtc { target }) => assert_eq!(target, "#chan"),
            other => panic!("{:?} gave {:?}", text, other),
        }
    }
    assert!(quiet(btc_handler(&context("btc"))));
    assert!(quiet(btc_handler(&context("\nbtc"))));
}
