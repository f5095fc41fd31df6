use sekshibot::command::parse_message;
use sekshibot::event::{ChatCommand, ChatMessage};

fn expect(name: &str, args: &[&str]) -> Option<(String, Vec<String>)> {
    Some((name.to_string(), args.iter().map(|a| a.to_string()).collect()))
}

#[test]
fn message_parser() {
    assert_eq!(parse_message("!e test"), expect("e", &["test"]));
    assert_eq!(
        parse_message("!addemote \"test\" https://wlk.yt/assets/emoji/1f604.png"),
        expect("addemote", &["test", "https://wlk.yt/assets/emoji/1f604.png"]),
    );
}

#[test]
fn example_com_emote_command() {
    assert_eq!(
        parse_message("!addemote \"test\" https://example.com/x.png"),
        expect("addemote", &["test", "https://example.com/x.png"]),
    );
}

#[test]
fn plain_text_is_no_command() {
    assert_eq!(parse_message("not a command"), None);
    assert_eq!(parse_message(""), None);
}

#[test]
fn unterminated_quote_is_no_command() {
    assert_eq!(parse_message("!e \"test"), None);
    assert_eq!(parse_message("!e \"a b"), None);
}

#[test]
fn bare_prefix_is_no_command() {
    assert_eq!(parse_message("!"), None);
    assert_eq!(parse_message("! e"), None);
}

#[test]
fn command_without_arguments() {
    assert_eq!(parse_message("!emotes"), expect("emotes", &[]));
    assert_eq!(parse_message("!emotes  \t"), expect("emotes", &[]));
}

#[test]
fn trailing_blanks_are_ignored() {
    assert_eq!(parse_message("!e test   "), expect("e", &["test"]));
}

#[test]
fn several_blanks_separate_arguments() {
    assert_eq!(parse_message("!skiplist \t add  why"), expect("skiplist", &["add", "why"]));
}

#[test]
fn name_must_be_letters_only() {
    assert_eq!(parse_message("!e1 test"), None);
    assert_eq!(parse_message("!e-x"), None);
}

#[test]
fn text_after_quote_is_no_command() {
    assert_eq!(parse_message("!e \"a\"b"), None);
}

#[test]
fn escaped_quote_stays_in_argument() {
    assert_eq!(parse_message("!e \"a \\\"b\\\" c\" d"), expect("e", &["a \\\"b\\\" c", "d"]));
}

#[test]
fn quoted_argument_keeps_blanks() {
    assert_eq!(parse_message("!e \"two words\""), expect("e", &["two words"]));
    assert_eq!(parse_message("!e \"\""), expect("e", &[""]));
}

#[test]
fn any_whitespace_separates_arguments() {
    assert_eq!(parse_message("!e a\nb"), expect("e", &["a", "b"]));
    assert_eq!(parse_message("!e test\n"), expect("e", &["test"]));
    assert_eq!(parse_message("!e\r\n"), expect("e", &[]));
}

#[test]
fn parsing_twice_gives_the_same() {
    let text = "!addemote \"x y\" url";
    assert_eq!(parse_message(text), parse_message(text));
    assert_eq!(ChatCommand::from_str(text), ChatCommand::from_str(text));
}

#[test]
fn chat_message_holds_its_command() {
    let m = ChatMessage::new("1".to_string(), "u".to_string(), "!e kappa".to_string());
    let c = m.command().unwrap();
    assert_eq!(c.command, "e");
    assert_eq!(c.arguments, vec!["kappa".to_string()]);
    let plain = ChatMessage::new("2".to_string(), "u".to_string(), "hello".to_string());
    assert!(plain.command().is_none());
}
