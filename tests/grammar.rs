use nvim_cargo::grammar::{parse, usage, Command, ParseError, Usage};

fn words(ws: &[&str]) -> Vec<String> {
    ws.iter().map(|w| w.to_string()).collect()
}

#[test]
fn unknown_verb_is_other() {
    let r = parse(&words(&["build", "--release"]));
    assert_eq!(r, Ok(Command::Other { args: words(&["build", "--release"]) }));
}

#[test]
fn no_words_is_other() {
    assert_eq!(parse(&Vec::new()), Ok(Command::Other { args: Vec::new() }));
}

#[test]
fn verbs_are_case_sensitive() {
    let r = parse(&words(&["Add", "serde"]));
    assert_eq!(r, Ok(Command::Other { args: words(&["Add", "serde"]) }));
}

#[test]
fn help_as_first_word_is_other() {
    let r = parse(&words(&["help"]));
    assert_eq!(r, Ok(Command::Other { args: words(&["help"]) }));
}

#[test]
fn add_keeps_flags_in_order() {
    let r = parse(&words(&["add", "serde", "--features", "derive", "-F", "--help"]));
    assert_eq!(
        r,
        Ok(Command::Add { args: words(&["serde", "--features", "derive", "-F", "--help"]) })
    );
}

#[test]
fn add_without_words() {
    assert_eq!(parse(&words(&["add"])), Ok(Command::Add { args: Vec::new() }));
}

#[test]
fn remove_takes_one_name() {
    assert_eq!(
        parse(&words(&["remove", "serde"])),
        Ok(Command::Remove { name: "serde".to_string() })
    );
    assert_eq!(
        parse(&words(&["rm", "tokio"])),
        Ok(Command::Remove { name: "tokio".to_string() })
    );
}

#[test]
fn remove_without_name_fails() {
    let e = parse(&words(&["remove"])).unwrap_err();
    assert_eq!(e, ParseError::MissingCrate);
    assert!(!e.is_help());
    assert_eq!(
        e.message(),
        "error: the required argument <crate> was not provided\nUsage: :Cargo remove <crate> (alias: rm)"
    );
}

#[test]
fn remove_with_two_names_fails() {
    let e = parse(&words(&["rm", "a", "b"])).unwrap_err();
    assert_eq!(e, ParseError::UnexpectedArgument("b".to_string()));
    assert_eq!(e.message(), "error: unexpected argument 'b'");
}

#[test]
fn remove_with_unknown_flag_fails() {
    let e = parse(&words(&["remove", "--dev"])).unwrap_err();
    assert_eq!(e, ParseError::UnexpectedArgument("--dev".to_string()));
}

#[test]
fn remove_help_is_a_help_request() {
    let e = parse(&words(&["remove", "-h"])).unwrap_err();
    assert_eq!(e, ParseError::HelpRequested(Usage::Remove));
    assert!(e.is_help());
    assert_eq!(e.message(), "Usage: :Cargo remove <crate> (alias: rm)");
    let e = parse(&words(&["rm", "a", "--help"])).unwrap_err();
    assert!(e.is_help());
}

#[test]
fn reload_takes_no_words() {
    assert_eq!(parse(&words(&["reload"])), Ok(Command::Reload));
    let e = parse(&words(&["reload", "now"])).unwrap_err();
    assert_eq!(e, ParseError::UnexpectedArgument("now".to_string()));
    let e = parse(&words(&["reload", "--help"])).unwrap_err();
    assert_eq!(e, ParseError::HelpRequested(Usage::Reload));
    assert_eq!(e.message(), usage(Usage::Reload));
    assert_eq!(usage(Usage::Reload), "Usage: :Cargo reload");
}
