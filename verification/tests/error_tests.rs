use whispr::WhisprError;

#[test]
fn messages_name_their_kind() {
    let d = || "boom".to_string();
    assert_eq!(WhisprError::AudioError(d()).message(), "Audio initialization failed: boom");
    assert_eq!(WhisprError::ConfigError(d()).message(), "Configuration error: boom");
    assert_eq!(WhisprError::HotkeyError(d()).message(), "Hotkey error: boom");
    assert_eq!(WhisprError::WhisperError(d()).message(), "Whisper model error: boom");
    assert_eq!(WhisprError::SystemError(d()).message(), "System error: boom");
}
