//! Errors of the app and the messages that describe them.

use vstd::prelude::*;

verus! {

/// What went wrong while setting the app up.
#[derive(Debug)]
pub enum WhisprError {
    AudioError(String),
    ConfigError(String),
    HotkeyError(String),
    WhisperError(String),
    SystemError(String),
}

/// The message that describes `e`: a fixed prefix for its kind, then its detail.
pub open spec fn error_text(e: WhisprError) -> Seq<char> {
    match e {
        WhisprError::AudioError(d) => "Audio initialization failed: "@ + d@,
        WhisprError::ConfigError(d) => "Configuration error: "@ + d@,
        WhisprError::HotkeyError(d) => "Hotkey error: "@ + d@,
        WhisprError::WhisperError(d) => "Whisper model error: "@ + d@,
        WhisprError::SystemError(d) => "System error: "@ + d@,
    }
}

impl WhisprError {
    /// The message that describes this error.
    pub fn message(&self) -> (m: String)
        ensures
            m@ == error_text(*self),
    {
        let (prefix, detail) = match self {
            WhisprError::AudioError(d) => ("Audio initialization failed: ", d),
            WhisprError::ConfigError(d) => ("Configuration error: ", d),
            WhisprError::HotkeyError(d) => ("Hotkey error: ", d),
            WhisprError::WhisperError(d) => ("Whisper model error: ", d),
            WhisprError::SystemError(d) => ("System error: ", d),
        };
        let mut m = String::from_str(prefix);
        m.append(detail.as_str());
        m
    }
}

} // verus!
