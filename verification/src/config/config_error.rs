//! Why a configuration is refused.

use vstd::prelude::*;
use vstd::string::{to_string_from_display_ensures, StringExecFns};

verus! {

/// The error of the TOML parser, carried through untouched.
#[verifier::external_type_specification]
#[verifier::external_body]
pub struct ExTomlError(toml::de::Error);

/// Why loading the configuration failed. Every one of these ends the
/// process at startup.
#[derive(Debug)]
pub enum ConfigError {
    /// The configuration file could not be read.
    CanNotRead(std::io::Error),
    /// The configuration file is not the TOML that is asked for.
    CanNotParseToml(toml::de::Error),
    /// The endpoint is no absolute URL, or its scheme does not go with the
    /// way of sending.
    InvalidEndPoint(String),
    SendTaskIsUnderOne,
    RetryCountIsUnderOne,
    ChannelBoundIsUnderOne,
    /// Two sources carry this name.
    DuplicateSourceName(String),
    /// Two sources watch this path.
    DuplicateLogPath(String),
}

impl ConfigError {
    /// Whether `text` is the line that reports this error. An error that
    /// carries another one reports that one's own text behind a fixed opening.
    pub open spec fn is_reported_as(self, text: Seq<char>) -> bool {
        match self {
            ConfigError::CanNotRead(e) => exists|detail: String|
                to_string_from_display_ensures::<std::io::Error>(&e, detail) && text
                    == "Failed to read config file: "@ + detail@,
            ConfigError::CanNotParseToml(e) => exists|detail: String|
                to_string_from_display_ensures::<toml::de::Error>(&e, detail) && text
                    == "Failed to Parse TOML: "@ + detail@,
            ConfigError::InvalidEndPoint(end_point) => text == "Invalid endpoint "@ + end_point@,
            ConfigError::SendTaskIsUnderOne => text == "send task is must be over 1"@,
            ConfigError::RetryCountIsUnderOne => text == "Retry count is must be over 1"@,
            ConfigError::ChannelBoundIsUnderOne => text == "Channel bound is must be over 1"@,
            ConfigError::DuplicateSourceName(name) => text
                == "Duplicated source name in config: '"@ + name@ + "'"@,
            ConfigError::DuplicateLogPath(path) => text
                == "Duplicated log file path in config: '"@ + path@ + "'"@,
        }
    }

    /// The line that reports this error.
    pub fn message(&self) -> (text: String)
        ensures
            self.is_reported_as(text@),
    {
        match self {
            ConfigError::CanNotRead(e) => {
                let detail = e.to_string();
                "Failed to read config file: ".to_owned().concat(detail.as_str())
            },
            ConfigError::CanNotParseToml(e) => {
                let detail = e.to_string();
                "Failed to Parse TOML: ".to_owned().concat(detail.as_str())
            },
            ConfigError::InvalidEndPoint(end_point) => "Invalid endpoint ".to_owned().concat(
                end_point.as_str(),
            ),
            ConfigError::SendTaskIsUnderOne => "send task is must be over 1".to_owned(),
            ConfigError::RetryCountIsUnderOne => "Retry count is must be over 1".to_owned(),
            ConfigError::ChannelBoundIsUnderOne => "Channel bound is must be over 1".to_owned(),
            ConfigError::DuplicateSourceName(name) => "Duplicated source name in config: '"
                .to_owned().concat(name.as_str()).concat("'"),
            ConfigError::DuplicateLogPath(path) => "Duplicated log file path in config: '"
                .to_owned().concat(path.as_str()).concat("'"),
        }
    }
}

} // verus!
