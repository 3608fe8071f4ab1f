//! Verified core of the Whispr dictation app: text clean-up rules, the
//! framing of the local post-processing request and the decisions taken
//! around one push-to-talk recording.

pub mod text;
pub mod json;
pub mod postprocess;
pub mod dictation;
pub mod error;

pub use error::WhisprError;
pub use postprocess::PostProcessSettings;
