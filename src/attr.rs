use vstd::prelude::*;
use crate::level::Level;

verus! {

/// One token of the attribute's argument list, as the lexer saw it.
#[derive(Clone, Debug, PartialEq, Eq)]
pub enum AttrToken {
    /// An identifier or keyword, by its text.
    Ident(String),
    /// A punctuation character.
    Punct(char),
    /// A literal or a delimited group.
    Other,
}

/// Why the attribute's argument list was refused.
#[derive(Clone, Copy, Debug, PartialEq, Eq, Structural)]
pub enum AttrError {
    /// The first token is not the identifier `default_log_level`.
    ExpectedLabel,
    /// `default_log_level` is not followed by `=`.
    ExpectedEquals,
    /// `=` is not followed by an identifier.
    ExpectedLevelName,
    /// The identifier after `=` names no level.
    UnknownLevel,
    /// Tokens follow the level name.
    UnexpectedToken,
}

impl AttrError {
    /// Position of the token that the error is about.
    pub open spec fn spec_position(self) -> int {
        match self {
            AttrError::ExpectedLabel => 0,
            AttrError::ExpectedEquals => 1,
            AttrError::ExpectedLevelName => 2,
            AttrError::UnknownLevel => 2,
            AttrError::UnexpectedToken => 3,
        }
    }

    /// Position in the argument list of the token that the error is about
    /// (one past the end where the token is missing).
    pub fn position(&self) -> (r: usize)
        ensures
            r as int == self.spec_position(),
    {
        match self {
            AttrError::ExpectedLabel => 0,
            AttrError::ExpectedEquals => 1,
            AttrError::ExpectedLevelName => 2,
            AttrError::UnknownLevel => 2,
            AttrError::UnexpectedToken => 3,
        }
    }
}

/// The level that a lower-case name stands for.
pub open spec fn level_named(s: Seq<char>) -> Option<Level> {
    if s == "off"@ {
        Some(Level::Off)
    } else if s == "error"@ {
        Some(Level::Error)
    } else if s == "warn"@ {
        Some(Level::Warn)
    } else if s == "info"@ {
        Some(Level::Info)
    } else if s == "debug"@ {
        Some(Level::Debug)
    } else if s == "trace"@ {
        Some(Level::Trace)
    } else {
        None
    }
}

pub open spec fn is_ident(t: AttrToken, s: Seq<char>) -> bool {
    t matches AttrToken::Ident(name) && name@ == s
}

/// The default level that an argument list configures: an empty list means
/// `Info`; otherwise the list is exactly `default_log_level = <name>`, with
/// `<name>` one of `off`, `error`, `warn`, `info`, `debug`, `trace`.
pub open spec fn configured_level(t: Seq<AttrToken>) -> Result<Level, AttrError> {
    if t.len() == 0 {
        Ok(Level::Info)
    } else if !is_ident(t[0], "default_log_level"@) {
        Err(AttrError::ExpectedLabel)
    } else if t.len() < 2 || t[1] != AttrToken::Punct('=') {
        Err(AttrError::ExpectedEquals)
    } else if t.len() < 3 || !(t[2] is Ident) {
        Err(AttrError::ExpectedLevelName)
    } else if level_named(t[2]->Ident_0@) is None {
        Err(AttrError::UnknownLevel)
    } else if t.len() > 3 {
        Err(AttrError::UnexpectedToken)
    } else {
        Ok(level_named(t[2]->Ident_0@)->Some_0)
    }
}

/// The level that a lower-case name stands for, if any.
pub fn level_from_name(name: &String) -> (r: Option<Level>)
    ensures
        r == level_named(name@),
{
    if *name == String::from_str("off") {
        Some(Level::Off)
    } else if *name == String::from_str("error") {
        Some(Level::Error)
    } else if *name == String::from_str("warn") {
        Some(Level::Warn)
    } else if *name == String::from_str("info") {
        Some(Level::Info)
    } else if *name == String::from_str("debug") {
        Some(Level::Debug)
    } else if *name == String::from_str("trace") {
        Some(Level::Trace)
    } else {
        None
    }
}

/// Reads the attribute's argument list: nothing, or `default_log_level = <name>`.
pub fn parse_log_level(metadata: &Vec<AttrToken>) -> (r: Result<Level, AttrError>)
    ensures
        r == configured_level(metadata@),
{
    if metadata.len() == 0 {
        return Ok(Level::Info);
    }
    match &metadata[0] {
        AttrToken::Ident(label) => {
            if !(*label == String::from_str("default_log_level")) {
                return Err(AttrError::ExpectedLabel);
            }
        },
        _ => {
            return Err(AttrError::ExpectedLabel);
        },
    }
    if metadata.len() < 2 {
        return Err(AttrError::ExpectedEquals);
    }
    match &metadata[1] {
        AttrToken::Punct(c) => {
            if *c != '=' {
                return Err(AttrError::ExpectedEquals);
            }
        },
        _ => {
            return Err(AttrError::ExpectedEquals);
        },
    }
    if metadata.len() < 3 {
        return Err(AttrError::ExpectedLevelName);
    }
    let level = match &metadata[2] {
        AttrToken::Ident(name) => match level_from_name(name) {
            Some(l) => l,
            None => {
                return Err(AttrError::UnknownLevel);
            },
        },
        _ => {
            return Err(AttrError::ExpectedLevelName);
        },
    };
    if metadata.len() > 3 {
        return Err(AttrError::UnexpectedToken);
    }
    Ok(level)
}

} // verus!
