use qu_derive::{level_from_name, parse_log_level, AttrError, AttrToken, Level};

fn ident(s: &str) -> AttrToken {
    AttrToken::Ident(s.to_string())
}

fn config(name: &str) -> Vec<AttrToken> {
    vec![ident("default_log_level"), AttrToken::Punct('='), ident(name)]
}

#[test]
fn empty_arguments_mean_info() {
    assert_eq!(parse_log_level(&vec![]), Ok(Level::Info));
}

#[test]
fn every_level_name_is_read() {
    assert_eq!(parse_log_level(&config("off")), Ok(Level::Off));
    assert_eq!(parse_log_level(&config("error")), Ok(Level::Error));
    assert_eq!(parse_log_level(&config("warn")), Ok(Level::Warn));
    assert_eq!(parse_log_level(&config("info")), Ok(Level::Info));
    assert_eq!(parse_log_level(&config("debug")), Ok(Level::Debug));
    assert_eq!(parse_log_level(&config("trace")), Ok(Level::Trace));
}

#[test]
fn level_names_are_lower_case() {
    assert_eq!(level_from_name(&"Info".to_string()), None);
    assert_eq!(level_from_name(&"verbose".to_string()), None);
    assert_eq!(level_from_name(&"".to_string()), None);
    assert_eq!(level_from_name(&"debug".to_string()), Some(Level::Debug));
}

#[test]
fn wrong_label_is_refused() {
    let t = vec![ident("log_level"), AttrToken::Punct('='), ident("info")];
    assert_eq!(parse_log_level(&t), Err(AttrError::ExpectedLabel));
    let t = vec![AttrToken::Other, AttrToken::Punct('='), ident("info")];
    assert_eq!(parse_log_level(&t), Err(AttrError::ExpectedLabel));
    assert_eq!(AttrError::ExpectedLabel.position(), 0);
}

#[test]
fn missing_equals_is_refused() {
    let t = vec![ident("default_log_level")];
    assert_eq!(parse_log_level(&t), Err(AttrError::ExpectedEquals));
    let t = vec![ident("default_log_level"), AttrToken::Punct(':'), ident("info")];
    assert_eq!(parse_log_level(&t), Err(AttrError::ExpectedEquals));
    assert_eq!(AttrError::ExpectedEquals.position(), 1);
}

#[test]
fn missing_level_name_is_refused() {
    let t = vec![ident("default_log_level"), AttrToken::Punct('=')];
    assert_eq!(parse_log_level(&t), Err(AttrError::ExpectedLevelName));
    let t = vec![ident("default_log_level"), AttrToken::Punct('='), AttrToken::Other];
    assert_eq!(parse_log_level(&t), Err(AttrError::ExpectedLevelName));
    assert_eq!(AttrError::ExpectedLevelName.position(), 2);
}

#[test]
fn unknown_level_name_is_refused() {
    assert_eq!(parse_log_level(&config("loud")), Err(AttrError::UnknownLevel));
    assert_eq!(parse_log_level(&config("WARN")), Err(AttrError::UnknownLevel));
    assert_eq!(AttrError::UnknownLevel.position(), 2);
}

#[test]
fn trailing_tokens_are_refused() {
    let mut t = config("warn");
    t.push(AttrToken::Punct(','));
    assert_eq!(parse_log_level(&t), Err(AttrError::UnexpectedToken));
    assert_eq!(AttrError::UnexpectedToken.position(), 3);
}
