//! Command-line settings.
use vstd::prelude::*;
use crate::mode::ascii_lower;

verus! {

/// How much is logged.
#[derive(Debug, Clone, Copy, PartialEq, Eq, Structural)]
pub enum LogLevel {
    Trace,
    Debug,
    Info,
    Warn,
    Error,
}

/// Decimal digits whose value lies in 1..=5: any number of `0`s, then one of `1` to `5`.
pub open spec fn small_number(s: Seq<char>) -> Option<LogLevel> {
    if s.len() > 0 && (forall|i: int| 0 <= i < s.len() - 1 ==> #[trigger] s[i] == '0') {
        let d = s.last();
        if d == '1' {
            Some(LogLevel::Error)
        } else if d == '2' {
            Some(LogLevel::Warn)
        } else if d == '3' {
            Some(LogLevel::Info)
        } else if d == '4' {
            Some(LogLevel::Debug)
        } else if d == '5' {
            Some(LogLevel::Trace)
        } else {
            None
        }
    } else {
        None
    }
}

/// The level that a text names: a number from 1 (error) to 5 (trace), with an optional
/// leading `+`, or a level's name in any ASCII case.
pub open spec fn level_of_text(s: Seq<char>) -> Option<LogLevel> {
    let n = if s.len() > 0 && s[0] == '+' {
        small_number(s.drop_first())
    } else {
        small_number(s)
    };
    if n is Some {
        n
    } else if ascii_lower(s) == "error"@ {
        Some(LogLevel::Error)
    } else if ascii_lower(s) == "warn"@ {
        Some(LogLevel::Warn)
    } else if ascii_lower(s) == "info"@ {
        Some(LogLevel::Info)
    } else if ascii_lower(s) == "debug"@ {
        Some(LogLevel::Debug)
    } else if ascii_lower(s) == "trace"@ {
        Some(LogLevel::Trace)
    } else {
        None
    }
}

/// Relies on tracing's `Level::from_str`: a text that parses as a `usize` from 1 to 5,
/// or a level name compared with `eq_ignore_ascii_case`, as `level_of_text` states.
#[verifier::external_body]
fn parse_level(text: &str) -> (r: Option<LogLevel>)
    ensures
        r == level_of_text(text@),
{
    match text.parse::<tracing::Level>() {
        Ok(tracing::Level::TRACE) => Some(LogLevel::Trace),
        Ok(tracing::Level::DEBUG) => Some(LogLevel::Debug),
        Ok(tracing::Level::INFO) => Some(LogLevel::Info),
        Ok(tracing::Level::WARN) => Some(LogLevel::Warn),
        Ok(_) => Some(LogLevel::Error),
        Err(_) => None,
    }
}

impl LogLevel {
    /// The level's name in upper case, as log filters write it.
    pub fn as_str(&self) -> (r: &'static str)
        ensures
            r@ == level_name(*self),
    {
        match self {
            LogLevel::Trace => "TRACE",
            LogLevel::Debug => "DEBUG",
            LogLevel::Info => "INFO",
            LogLevel::Warn => "WARN",
            LogLevel::Error => "ERROR",
        }
    }
}

pub open spec fn level_name(l: LogLevel) -> Seq<char> {
    match l {
        LogLevel::Trace => "TRACE"@,
        LogLevel::Debug => "DEBUG"@,
        LogLevel::Info => "INFO"@,
        LogLevel::Warn => "WARN"@,
        LogLevel::Error => "ERROR"@,
    }
}

/// The settings that the command line gives.
#[derive(Debug)]
pub struct Args {
    /// The level of this program's own logs (`--logs`).
    pub log_level: LogLevel,
    /// A configuration file to use instead of the default one (`--config`).
    pub config_path: Option<String>,
}

#[derive(Debug, Clone, Copy, PartialEq, Eq, Structural)]
pub enum ArgsError {
    /// `--logs` named no level.
    UnknownLogLevel,
}

/// The prefix of the log filter; the level of this program's own logs follows it.
pub const LOG_FILTER_PREFIX: &'static str = "ERROR,schnose_gsi_client=";

impl Args {
    /// The log filter: errors from everything, and this program's own logs down to
    /// `log_level`.
    pub fn log_filter(&self) -> (r: String)
        ensures
            r@ == LOG_FILTER_PREFIX@ + level_name(self.log_level),
    {
        LOG_FILTER_PREFIX.to_string().concat(self.log_level.as_str())
    }
}

/// Builds the settings from the values given on the command line: the text after
/// `--logs`, if any (the level defaults to info), and the path after `--config`.
pub fn get(log_level: Option<String>, config_path: Option<String>) -> (r: Result<Args, ArgsError>)
    ensures
        match log_level {
            None => r matches Ok(a) && a.log_level == LogLevel::Info && a.config_path == config_path,
            Some(t) => match level_of_text(t@) {
                Some(l) => r matches Ok(a) && a.log_level == l && a.config_path == config_path,
                None => r == Err::<Args, ArgsError>(ArgsError::UnknownLogLevel),
            },
        },
{
    let level = match &log_level {
        None => LogLevel::Info,
        Some(t) => match parse_level(t.as_str()) {
            Some(l) => l,
            None => {
                return Err(ArgsError::UnknownLogLevel);
            },
        },
    };
    Ok(Args { log_level: level, config_path })
}

} // verus!
