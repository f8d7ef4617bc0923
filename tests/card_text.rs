use trello::{Card, CardContents, TrelloError, TrelloObject};

fn contents(name: &str, desc: &str) -> CardContents {
    CardContents { name: String::from(name), desc: String::from(desc) }
}

#[test]
fn parse_without_delimiter_fails() {
    let r = Card::parse("Hello World");
    assert!(matches!(r, Err(TrelloError::CardParse(_))));
}

#[test]
fn parse_error_has_message() {
    let e = Card::parse("a\nb\nc").unwrap_err();
    assert_eq!(e.message(), "Unable to find name delimiter '===='");
}

#[test]
fn parse_basic() {
    let r = Card::parse("Hello World\n===\nThis is my card").unwrap();
    assert_eq!(r, contents("Hello World", "This is my card"));
}

#[test]
fn parse_multi_line_name() {
    let r = Card::parse("Line One\nLine Two\n===\nDesc").unwrap();
    assert_eq!(r, contents("Line One\nLine Two", "Desc"));
}

#[test]
fn parse_empty_description() {
    let r = Card::parse("Title\n===\n").unwrap();
    assert_eq!(r, contents("Title", ""));
}

#[test]
fn parse_delimiter_at_end_without_newline() {
    let r = Card::parse("Title\n=").unwrap();
    assert_eq!(r, contents("Title", ""));
}

#[test]
fn parse_delimiter_length_is_irrelevant() {
    assert_eq!(Card::parse("Title\n==\nBody").unwrap(), contents("Title", "Body"));
    assert_eq!(Card::parse("Title\n=====\nBody").unwrap(), contents("Title", "Body"));
}

#[test]
fn parse_first_line_is_always_name() {
    let r = Card::parse("===\n==\nBody").unwrap();
    assert_eq!(r, contents("===", "Body"));
}

#[test]
fn parse_empty_line_counts_as_delimiter() {
    let r = Card::parse("Title\n\nBody\n===\nMore").unwrap();
    assert_eq!(r, contents("Title", "Body\n===\nMore"));
}

#[test]
fn parse_multi_line_description_kept_verbatim() {
    let r = Card::parse(" Title \n===\n  one\n\ntwo  \n").unwrap();
    assert_eq!(r, contents(" Title ", "  one\n\ntwo  \n"));
}

#[test]
fn parse_carriage_return_stays_in_line() {
    assert!(Card::parse("Title\r\n===\r\nBody").is_err());
    let r = Card::parse("Title\r\n===\nBody\r\n").unwrap();
    assert_eq!(r, contents("Title\r", "Body\r\n"));
}

#[test]
fn parse_empty_buffer_fails() {
    assert!(Card::parse("").is_err());
}

#[test]
fn render_underlines_name() {
    let card = Card::new("1", "Hello World", "This is my card", None, "");
    assert_eq!(card.render(), "Hello World\n===========\nThis is my card");
}

#[test]
fn render_underline_follows_last_name_line() {
    let card = Card::new("1", "Long first line\nab", "", None, "");
    assert_eq!(card.render(), "Long first line\nab\n==\n");
}

#[test]
fn render_then_parse_round_trips() {
    let cases = [
        ("Hello World", "This is my card"),
        ("Line One\nLine Two", "Desc\n\nwith blank lines\n"),
        ("Title", ""),
        ("x", "==="),
        ("Ünïcødé name", "δ"),
    ];
    for (name, desc) in cases.iter() {
        let card = Card::new("1", name, desc, None, "");
        let parsed = Card::parse(&card.render()).unwrap();
        assert_eq!(parsed, contents(name, desc));
    }
}

#[test]
fn render_and_parse_are_deterministic() {
    let card = Card::new("1", "Name\nmore", "Desc", None, "");
    assert_eq!(card.render(), card.render());
    let text = card.render();
    assert_eq!(Card::parse(&text), Card::parse(&text.clone()));
    assert_eq!(Card::parse("no delimiter"), Card::parse("no delimiter"));
}

#[test]
fn card_object_metadata() {
    let card = Card::new("7", "Name", "", None, "http://x");
    assert_eq!(Card::get_type(), "Card");
    assert_eq!(card.get_name(), "Name");
    assert_eq!(Card::get_fields(), &["id", "name", "desc", "labels", "closed", "url"]);
    assert!(!card.closed);
    assert_eq!(card.duplicate(), card);
}
