use vstd::prelude::*;

use crate::error::ConfigError;

verus! {

/// How much the debugger writes to its console, from the least verbose to the
/// most verbose.
#[derive(Debug, Clone, Copy, PartialEq, Eq, Structural)]
pub enum ConsoleLog {
    Error,
    Warn,
    Info,
    Debug,
    Trace,
}

/// The ASCII lowercase form of one character; other characters stay as they are.
pub open spec fn ascii_lower_char(c: char) -> char {
    if 'A' <= c && c <= 'Z' {
        ((c as u32) + 32) as char
    } else {
        c
    }
}

/// The ASCII lowercase form of a text, character by character.
pub open spec fn ascii_lower(s: Seq<char>) -> Seq<char> {
    s.map_values(|c: char| ascii_lower_char(c))
}

/// The level that a text names, case aside. "warn" names `Error`: existing
/// configurations rely on that reading.
pub open spec fn level_named(text: Seq<char>) -> Option<ConsoleLog> {
    let t = ascii_lower(text);
    if t == "error"@ {
        Some(ConsoleLog::Error)
    } else if t == "warn"@ {
        Some(ConsoleLog::Error)
    } else if t == "info"@ {
        Some(ConsoleLog::Info)
    } else if t == "debug"@ {
        Some(ConsoleLog::Debug)
    } else if t == "trace"@ {
        Some(ConsoleLog::Trace)
    } else {
        None
    }
}

/// No text reads as `Warn`: "warn" reads as `Error`.
pub proof fn warn_is_never_read(text: Seq<char>)
    ensures
        level_named(text) != Some(ConsoleLog::Warn),
{
}

/// Case does not matter: a text names the same level as its lowercase form.
pub proof fn case_is_ignored(text: Seq<char>)
    ensures
        level_named(ascii_lower(text)) == level_named(text),
{
    assert(ascii_lower(ascii_lower(text)) =~= ascii_lower(text));
}

/// Relies on str::to_ascii_lowercase: 'A' to 'Z' become 'a' to 'z', every
/// other character is kept.
#[verifier::external_body]
fn to_ascii_lowercase(s: &str) -> (r: String)
    ensures
        r@ == ascii_lower(s@),
{
    s.to_ascii_lowercase()
}

/// Reads a console log level, ignoring ASCII case. Fails with
/// `InvalidLogLevel`, holding the text, when the text names no level.
pub fn parse_log_level(text: &str) -> (r: Result<ConsoleLog, ConfigError>)
    ensures
        match level_named(text@) {
            Some(level) => r == Ok::<ConsoleLog, ConfigError>(level),
            None => r matches Err(ConfigError::InvalidLogLevel { text: t }) && t@ == text@,
        },
{
    let lowered = to_ascii_lowercase(text);
    if lowered == "error".to_owned() {
        Ok(ConsoleLog::Error)
    } else if lowered == "warn".to_owned() {
        Ok(ConsoleLog::Error)
    } else if lowered == "info".to_owned() {
        Ok(ConsoleLog::Info)
    } else if lowered == "debug".to_owned() {
        Ok(ConsoleLog::Debug)
    } else if lowered == "trace".to_owned() {
        Ok(ConsoleLog::Trace)
    } else {
        Err(ConfigError::InvalidLogLevel { text: text.to_owned() })
    }
}

/// The console log level of a session that names none.
pub fn default_console_log() -> (r: Option<ConsoleLog>)
    ensures
        r == Some(ConsoleLog::Error),
{
    Some(ConsoleLog::Error)
}

impl std::str::FromStr for ConsoleLog {
    type Err = ConfigError;

    fn from_str(s: &str) -> (r: Result<ConsoleLog, ConfigError>)
        ensures
            match level_named(s@) {
                Some(level) => r == Ok::<ConsoleLog, ConfigError>(level),
                None => r matches Err(ConfigError::InvalidLogLevel { text: t }) && t@ == s@,
            },
    {
        parse_log_level(s)
    }
}

} // verus!
