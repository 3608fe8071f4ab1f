use whispr::dictation::{
    assemble_transcription, default_input_device, Command, Event, Reaction, Session, Status,
};

fn segs(v: &[&str]) -> Vec<String> {
    v.iter().map(|s| s.to_string()).collect()
}

fn typed_text(r: &Reaction) -> Option<String> {
    match &r.command {
        Command::Type(t) => Some(t.clone()),
        _ => None,
    }
}

#[test]
fn segments_joined_with_spaces() {
    assert_eq!(assemble_transcription(&segs(&["Hello", "world"])), "Hello world");
}

#[test]
fn trailing_punctuation_gets_a_space() {
    assert_eq!(assemble_transcription(&segs(&["Hello", "world."])), "Hello world. ");
    assert_eq!(assemble_transcription(&segs(&["Really?"])), "Really? ");
    assert_eq!(assemble_transcription(&segs(&["a", "(b)"])), "a (b) ");
}

#[test]
fn no_space_after_non_ascii_punctuation() {
    assert_eq!(assemble_transcription(&segs(&["Ende。"])), "Ende。");
    assert_eq!(assemble_transcription(&segs(&["ok"])), "ok");
}

#[test]
fn empty_segments() {
    assert_eq!(assemble_transcription(&segs(&[])), "");
    assert_eq!(assemble_transcription(&segs(&["a", ""])), "a ");
    assert_eq!(assemble_transcription(&segs(&["", ""])), " ");
}

fn start_recording(s: &mut Session) {
    let r = s.handle(Event::KeyDown);
    assert!(r.show_overlay);
    assert!(matches!(r.command, Command::StartCapture));
    let r = s.handle(Event::CaptureStarted(true));
    assert_eq!(r.emit, Some(Status::Listening));
    assert!(s.is_idle());
}

fn release_and_transcribe(s: &mut Session, words: &[&str]) {
    let r = s.handle(Event::KeyUp);
    assert!(matches!(r.command, Command::StopCapture));
    let r = s.handle(Event::CaptureStopped { elapsed_secs: 2, elapsed_subsec_nanos: 0 });
    assert_eq!(r.emit, Some(Status::Transcribing));
    assert!(matches!(r.command, Command::CollectAudio));
    let r = s.handle(Event::AudioCollected(true));
    assert!(matches!(r.command, Command::Transcribe));
    let r = s.handle(Event::Transcribed(Some(segs(words))));
    assert!(matches!(r.command, Command::LoadSettings));
}

#[test]
fn dictation_with_correction_types_corrected_text() {
    let mut s = Session::new(true);
    start_recording(&mut s);
    release_and_transcribe(&mut s, &["so um", "hello there."]);
    let r = s.handle(Event::SettingsLoaded(true));
    assert_eq!(r.emit, Some(Status::Correcting));
    match &r.command {
        Command::Correct(t) => assert_eq!(t, "so um hello there. "),
        other => panic!("unexpected {:?}", other),
    }
    let r = s.handle(Event::Corrected(Ok("So, hello there.".to_string())));
    assert_eq!(typed_text(&r).as_deref(), Some("So, hello there."));
    let r = s.handle(Event::Typed(true));
    assert_eq!(r.emit, Some(Status::Ready));
    assert!(r.hide_overlay);
    assert!(s.is_idle());
    // the permit is free again: a new recording can start
    start_recording(&mut s);
}

#[test]
fn failed_correction_types_raw_text() {
    let mut s = Session::new(true);
    start_recording(&mut s);
    release_and_transcribe(&mut s, &["hello"]);
    s.handle(Event::SettingsLoaded(true));
    let r = s.handle(Event::Corrected(Err("Ollama request failed: timed out".to_string())));
    assert_eq!(r.emit, Some(Status::Ready));
    assert_eq!(typed_text(&r).as_deref(), Some("hello"));
}

#[test]
fn disabled_post_processing_types_raw_text() {
    let mut s = Session::new(true);
    start_recording(&mut s);
    release_and_transcribe(&mut s, &["hello", "world!"]);
    let r = s.handle(Event::SettingsLoaded(false));
    assert_eq!(r.emit, None);
    assert_eq!(typed_text(&r).as_deref(), Some("hello world! "));
}

#[test]
fn second_press_is_refused_while_recording() {
    let mut s = Session::new(true);
    start_recording(&mut s);
    let r = s.handle(Event::KeyDown);
    assert!(matches!(r.command, Command::ReportBusy));
    assert!(!r.show_overlay);
}

#[test]
fn press_without_audio_opens_it_and_failure_returns_permit() {
    let mut s = Session::new(false);
    let r = s.handle(Event::KeyDown);
    assert!(matches!(r.command, Command::OpenAudio));
    let r = s.handle(Event::AudioOpened(false));
    assert!(r.hide_overlay);
    assert!(s.is_idle());
    let r = s.handle(Event::KeyDown);
    assert!(matches!(r.command, Command::OpenAudio));
    let r = s.handle(Event::AudioOpened(true));
    assert!(matches!(r.command, Command::StartCapture));
    let r = s.handle(Event::CaptureStarted(false));
    assert!(r.hide_overlay);
    assert!(s.is_idle());
    start_recording(&mut s);
}

#[test]
fn release_without_audio_reports_nothing_recording() {
    let mut s = Session::new(false);
    let r = s.handle(Event::KeyUp);
    assert!(matches!(r.command, Command::ReportNoAudio));
    assert!(s.is_idle());
}

#[test]
fn short_recording_is_dropped() {
    let mut s = Session::new(true);
    start_recording(&mut s);
    s.handle(Event::KeyUp);
    let r = s.handle(Event::CaptureStopped { elapsed_secs: 0, elapsed_subsec_nanos: 999_999_999 });
    assert_eq!(r.emit, Some(Status::Ready));
    assert!(r.hide_overlay);
    assert!(matches!(r.command, Command::Nothing));
    assert!(s.is_idle());
    // the permit is free again: a new recording starts
    start_recording(&mut s);
}

#[test]
fn one_second_recording_is_kept() {
    let mut s = Session::new(true);
    start_recording(&mut s);
    s.handle(Event::KeyUp);
    let r = s.handle(Event::CaptureStopped { elapsed_secs: 1, elapsed_subsec_nanos: 0 });
    assert!(matches!(r.command, Command::CollectAudio));
}

#[test]
fn nothing_recognised_ends_the_dictation() {
    let mut s = Session::new(true);
    start_recording(&mut s);
    s.handle(Event::KeyUp);
    s.handle(Event::CaptureStopped { elapsed_secs: 3, elapsed_subsec_nanos: 5 });
    s.handle(Event::AudioCollected(true));
    let r = s.handle(Event::Transcribed(Some(Vec::new())));
    assert_eq!(r.emit, Some(Status::Ready));
    assert!(r.hide_overlay);
    assert!(s.is_idle());
    start_recording(&mut s);
}

#[test]
fn failed_recognition_and_missing_audio_end_the_dictation() {
    let mut s = Session::new(true);
    start_recording(&mut s);
    s.handle(Event::KeyUp);
    s.handle(Event::CaptureStopped { elapsed_secs: 3, elapsed_subsec_nanos: 0 });
    let r = s.handle(Event::AudioCollected(false));
    assert_eq!(r.emit, Some(Status::Ready));
    assert!(s.is_idle());
    start_recording(&mut s);

    let mut s = Session::new(true);
    start_recording(&mut s);
    s.handle(Event::KeyUp);
    s.handle(Event::CaptureStopped { elapsed_secs: 3, elapsed_subsec_nanos: 0 });
    s.handle(Event::AudioCollected(true));
    let r = s.handle(Event::Transcribed(None));
    assert_eq!(r.emit, Some(Status::Ready));
    assert!(r.hide_overlay);
    start_recording(&mut s);
}

#[test]
fn failed_typing_returns_permit() {
    let mut s = Session::new(true);
    start_recording(&mut s);
    release_and_transcribe(&mut s, &["x"]);
    s.handle(Event::SettingsLoaded(false));
    let r = s.handle(Event::Typed(false));
    assert_eq!(r.emit, Some(Status::Ready));
    assert!(r.hide_overlay);
    assert!(s.is_idle());
    start_recording(&mut s);
}

#[test]
fn events_out_of_place_are_ignored() {
    let mut s = Session::new(true);
    let r = s.handle(Event::Typed(true));
    assert!(matches!(r.command, Command::Nothing));
    assert!(s.is_idle());
    start_recording(&mut s);
    assert!(matches!(s.handle(Event::KeyDown).command, Command::ReportBusy));
}

#[test]
fn release_without_press_keeps_single_permit() {
    let mut s = Session::new(true);
    // a release with no recording behind it runs through and frees nothing new
    s.handle(Event::KeyUp);
    s.handle(Event::CaptureStopped { elapsed_secs: 0, elapsed_subsec_nanos: 0 });
    s.handle(Event::AudioCollected(false));
    assert!(s.is_idle());
    start_recording(&mut s);
    // only one recording at a time
    assert!(matches!(s.handle(Event::KeyDown).command, Command::ReportBusy));
}

#[test]
fn first_device_is_chosen_when_none_configured() {
    let devices = Some(vec!["MacBook Pro Microphone".to_string(), "AirPods".to_string()]);
    assert_eq!(
        default_input_device(&None, &devices),
        Some("MacBook Pro Microphone".to_string())
    );
    assert_eq!(default_input_device(&Some("AirPods".to_string()), &devices), None);
    assert_eq!(default_input_device(&None, &Some(Vec::new())), None);
    assert_eq!(default_input_device(&None, &None), None);
}
