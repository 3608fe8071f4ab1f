//! What happens around one push-to-talk recording: the text assembled from
//! the recognised segments, and the decisions taken between the outside
//! steps (audio, recognition, post-processing, typing).

use vstd::prelude::*;

use crate::text::{ascii_punctuation, is_ascii_punctuation};

verus! {

/// The segments joined with single spaces.
pub open spec fn joined(segments: Seq<Seq<char>>) -> Seq<char>
    decreases segments.len(),
{
    if segments.len() == 0 {
        seq![]
    } else if segments.len() == 1 {
        segments[0]
    } else {
        joined(segments.drop_last()) + seq![' '] + segments.last()
    }
}

/// The text of a recording: the segments joined with single spaces, with one
/// more space when it ends in ASCII punctuation, so that the next dictation
/// continues the sentence.
pub open spec fn transcription_text(segments: Seq<Seq<char>>) -> Seq<char> {
    let j = joined(segments);
    if j.len() > 0 && is_ascii_punctuation(j.last()) {
        j.push(' ')
    } else {
        j
    }
}

/// Where segment `i` starts when segments are written one after the other
/// with one character between every two: the lengths of the earlier
/// segments plus one for each of them.
pub open spec fn segment_offset(segments: Seq<Seq<char>>, i: int) -> int
    decreases i,
{
    if i <= 0 {
        0
    } else {
        segment_offset(segments, i - 1) + segments[i - 1].len() + 1
    }
}

proof fn lemma_offset_prefix(segments: Seq<Seq<char>>, n: int, i: int)
    requires
        0 <= i <= n <= segments.len(),
    ensures
        segment_offset(segments.take(n), i) == segment_offset(segments, i),
    decreases i,
{
    if i > 0 {
        lemma_offset_prefix(segments, n, i - 1);
        assert(segments.take(n)[i - 1] == segments[i - 1]);
    }
}

proof fn lemma_offset_nonneg(segments: Seq<Seq<char>>, i: int)
    ensures
        segment_offset(segments, i) >= 0,
    decreases i,
{
    if i > 0 {
        lemma_offset_nonneg(segments, i - 1);
    }
}

proof fn lemma_offset_grows(segments: Seq<Seq<char>>, i: int, k: int)
    requires
        0 <= i < k <= segments.len(),
    ensures
        segment_offset(segments, k) >= segment_offset(segments, i) + segments[i].len() + 1,
    decreases k,
{
    if k > i + 1 {
        lemma_offset_grows(segments, i, k - 1);
    }
}

proof fn lemma_joined_len(segments: Seq<Seq<char>>)
    requires
        segments.len() >= 1,
    ensures
        joined(segments).len() == segment_offset(segments, segments.len() - 1)
            + segments.last().len(),
    decreases segments.len(),
{
    let n = segments.len() as int;
    if n > 1 {
        let p = segments.drop_last();
        lemma_joined_len(p);
        assert(p == segments.take(n - 1));
        lemma_offset_prefix(segments, n - 1, n - 2);
        assert(p[n - 2] == segments[n - 2]);
    }
}

proof fn lemma_segment_at(segments: Seq<Seq<char>>, i: int)
    requires
        0 <= i < segments.len(),
    ensures
        joined(segments).subrange(
            segment_offset(segments, i),
            segment_offset(segments, i) + segments[i].len(),
        ) == segments[i],
        i > 0 ==> joined(segments)[segment_offset(segments, i) - 1] == ' ',
    decreases segments.len(),
{
    let n = segments.len() as int;
    let j = joined(segments);
    if n == 1 {
        assert(j.subrange(0, segments[0].len() as int) == segments[0]);
    } else {
        let p = segments.drop_last();
        let jp = joined(p);
        assert(j == jp + seq![' '] + segments.last());
        assert(p == segments.take(n - 1));
        lemma_joined_len(p);
        lemma_offset_prefix(segments, n - 1, n - 2);
        assert(p[n - 2] == segments[n - 2]);
        if i == n - 1 {
            assert(segment_offset(segments, i) == jp.len() + 1);
            assert(j.subrange(jp.len() + 1 as int, j.len() as int) == segments.last());
        } else {
            lemma_segment_at(p, i);
            lemma_offset_prefix(segments, n - 1, i);
            lemma_offset_nonneg(p, i);
            if i < n - 2 {
                lemma_offset_grows(p, i, n - 2);
            }
            assert(p[i] == segments[i]);
            let o = segment_offset(p, i);
            assert(j.subrange(o, o + p[i].len()) == jp.subrange(o, o + p[i].len()));
            if i > 0 {
                lemma_offset_nonneg(p, i - 1);
                assert(j[o - 1] == jp[o - 1]);
            }
        }
    }
}

/// The segments are laid out in order with exactly one space between every
/// two consecutive ones and nothing else: the text is as long as all
/// segments plus one character per gap, segment `i` stands at its offset,
/// and the character before each later segment is a space.
pub proof fn lemma_joined_layout(segments: Seq<Seq<char>>)
    requires
        segments.len() >= 1,
    ensures
        joined(segments).len() == segment_offset(segments, segments.len() - 1)
            + segments.last().len(),
        forall|i: int|
            0 <= i < segments.len() ==> joined(segments).subrange(
                segment_offset(segments, i),
                segment_offset(segments, i) + segments[i].len(),
            ) == #[trigger] segments[i],
        forall|i: int|
            #![trigger segment_offset(segments, i)]
            0 < i < segments.len() ==> joined(segments)[segment_offset(segments, i) - 1] == ' ',
{
    lemma_joined_len(segments);
    assert forall|i: int| 0 <= i < segments.len() implies joined(segments).subrange(
        segment_offset(segments, i),
        segment_offset(segments, i) + segments[i].len(),
    ) == #[trigger] segments[i] by {
        lemma_segment_at(segments, i);
    }
    assert forall|i: int|
        #![trigger segment_offset(segments, i)]
        0 < i < segments.len() implies joined(segments)[segment_offset(segments, i) - 1] == ' ' by {
        lemma_segment_at(segments, i);
    }
}

/// The typed text is the joined segments, followed by one space exactly when
/// they end in ASCII punctuation.
pub proof fn lemma_transcription_layout(segments: Seq<Seq<char>>)
    ensures
        transcription_text(segments).take(joined(segments).len() as int) == joined(segments),
        transcription_text(segments).len() == joined(segments).len() + if joined(segments).len()
            > 0 && is_ascii_punctuation(joined(segments).last()) {
            1int
        } else {
            0int
        },
        transcription_text(segments).len() > joined(segments).len() ==> transcription_text(
            segments,
        ).last() == ' ',
{
    let j = joined(segments);
    assert(j.push(' ').take(j.len() as int) == j);
    assert(j.take(j.len() as int) == j);
}

/// The text typed for a recording whose recognised segments are `segments`.
pub fn assemble_transcription(segments: &Vec<String>) -> (t: String)
    ensures
        t@ == transcription_text(segments.deep_view()),
{
    let ghost segs = segments.deep_view();
    let mut t = String::new();
    let n = segments.len();
    for i in 0..n
        invariant
            n == segments.len(),
            segs == segments.deep_view(),
            segs.len() == n,
            t@ == joined(segs.take(i as int)),
    {
        assert(segs.take(i + 1).drop_last() == segs.take(i as int));
        assert(segs[i as int] == segments[i as int]@);
        if i != 0 {
            t.append(" ");
            proof {
                reveal_strlit(" ");
            }
        }
        t.append(segments[i].as_str());
    }
    assert(segs.take(n as int) == segs);
    let len = t.as_str().unicode_len();
    if len > 0 && ascii_punctuation(t.as_str().get_char(len - 1)) {
        t.append(" ");
        proof {
            reveal_strlit(" ");
        }
    }
    t
}


/// The text to type once post-processing has answered: the correction, or
/// the raw transcription when correction failed.
pub open spec fn text_to_type(raw: Seq<char>, outcome: Result<Seq<char>, Seq<char>>) -> Seq<char> {
    match outcome {
        Ok(corrected) => corrected,
        Err(_) => raw,
    }
}

/// The correction, or `raw` when correction failed.
pub fn corrected_or_raw(raw: String, outcome: Result<String, String>) -> (t: String)
    ensures
        t@ == text_to_type(
            raw@,
            match outcome {
                Ok(c) => Ok(c@),
                Err(e) => Err(e@),
            },
        ),
{
    match outcome {
        Ok(corrected) => corrected,
        Err(_) => raw,
    }
}

/// The input device to save when the settings name none: the first device
/// listed, if the devices could be listed and there is one.
pub fn default_input_device(configured: &Option<String>, listed: &Option<Vec<String>>) -> (d:
    Option<String>)
    ensures
        match (configured, listed) {
            (None, Some(devices)) => if devices@.len() > 0 {
                d == Some(devices@[0])
            } else {
                d is None
            },
            _ => d is None,
        },
{
    match (configured, listed) {
        (None, Some(devices)) => {
            if devices.len() > 0 {
                Some(devices[0].clone())
            } else {
                None
            }
        },
        _ => None,
    }
}

/// Shortest recording that is transcribed, in nanoseconds (one second).
pub open spec fn min_recording_nanos() -> nat {
    1_000_000_000
}

/// Status the app announces to its overlay window.
#[derive(Debug, Clone, Copy, PartialEq, Eq, Structural)]
pub enum Status {
    Listening,
    Transcribing,
    Correcting,
    Ready,
}

/// Where a session stands between two outside steps.
#[derive(Debug)]
pub enum Stage {
    /// Waiting for the push-to-talk key.
    Idle,
    /// The audio input is being opened.
    OpeningAudio,
    /// Capture is being started.
    StartingCapture,
    /// Capture is being stopped.
    StoppingCapture,
    /// The captured samples are being fetched.
    CollectingAudio,
    /// The speech recogniser is running.
    Transcribing,
    /// The post-processing settings are being loaded; holds the transcription.
    LoadingSettings(String),
    /// The model is correcting the transcription that this holds.
    Correcting(String),
    /// The text is being typed.
    Typing,
}

/// The stage, with its text as a sequence of characters.
pub enum StageModel {
    Idle,
    OpeningAudio,
    StartingCapture,
    StoppingCapture,
    CollectingAudio,
    Transcribing,
    LoadingSettings(Seq<char>),
    Correcting(Seq<char>),
    Typing,
}

impl View for Stage {
    type V = StageModel;

    open spec fn view(&self) -> StageModel {
        match self {
            Stage::Idle => StageModel::Idle,
            Stage::OpeningAudio => StageModel::OpeningAudio,
            Stage::StartingCapture => StageModel::StartingCapture,
            Stage::StoppingCapture => StageModel::StoppingCapture,
            Stage::CollectingAudio => StageModel::CollectingAudio,
            Stage::Transcribing => StageModel::Transcribing,
            Stage::LoadingSettings(t) => StageModel::LoadingSettings(t@),
            Stage::Correcting(t) => StageModel::Correcting(t@),
            Stage::Typing => StageModel::Typing,
        }
    }
}

/// What happened outside since the last step.
#[derive(Debug)]
pub enum Event {
    /// The push-to-talk key went down.
    KeyDown,
    /// The push-to-talk key went up.
    KeyUp,
    /// Opening the audio input succeeded or failed.
    AudioOpened(bool),
    /// Starting the capture succeeded or failed.
    CaptureStarted(bool),
    /// Capture stopped; the time since it started.
    CaptureStopped { elapsed_secs: u64, elapsed_subsec_nanos: u32 },
    /// Whether captured samples were available.
    AudioCollected(bool),
    /// The recognised segments, or `None` when recognition failed.
    Transcribed(Option<Vec<String>>),
    /// Whether post-processing is enabled in the settings just loaded.
    SettingsLoaded(bool),
    /// The corrected text, or why correction failed.
    Corrected(Result<String, String>),
    /// Whether the text was typed.
    Typed(bool),
}

/// An event, with texts as sequences of characters and elapsed time in nanoseconds.
pub enum EventModel {
    KeyDown,
    KeyUp,
    AudioOpened(bool),
    CaptureStarted(bool),
    CaptureStopped(nat),
    AudioCollected(bool),
    Transcribed(Option<Seq<Seq<char>>>),
    SettingsLoaded(bool),
    Corrected(Result<Seq<char>, Seq<char>>),
    Typed(bool),
}

impl View for Event {
    type V = EventModel;

    open spec fn view(&self) -> EventModel {
        match self {
            Event::KeyDown => EventModel::KeyDown,
            Event::KeyUp => EventModel::KeyUp,
            Event::AudioOpened(ok) => EventModel::AudioOpened(*ok),
            Event::CaptureStarted(ok) => EventModel::CaptureStarted(*ok),
            Event::CaptureStopped { elapsed_secs, elapsed_subsec_nanos } => EventModel::CaptureStopped(
                (*elapsed_secs as nat) * 1_000_000_000 + (*elapsed_subsec_nanos as nat),
            ),
            Event::AudioCollected(ok) => EventModel::AudioCollected(*ok),
            Event::Transcribed(segments) => EventModel::Transcribed(
                match segments {
                    Some(v) => Some(v.deep_view()),
                    None => None,
                },
            ),
            Event::SettingsLoaded(on) => EventModel::SettingsLoaded(*on),
            Event::Corrected(r) => EventModel::Corrected(
                match r {
                    Ok(t) => Ok(t@),
                    Err(e) => Err(e@),
                },
            ),
            Event::Typed(ok) => EventModel::Typed(*ok),
        }
    }
}

/// The next outside step the app has to take.
#[derive(Debug)]
pub enum Command {
    /// Nothing; wait for the next key event.
    Nothing,
    /// Log that a recording is already in progress.
    ReportBusy,
    /// Log that nothing was recording.
    ReportNoAudio,
    /// Open the audio input and apply the saved device settings.
    OpenAudio,
    /// Start capturing.
    StartCapture,
    /// Stop capturing and measure how long the recording lasted.
    StopCapture,
    /// Fetch the captured samples (16 kHz, mono).
    CollectAudio,
    /// Run the speech recogniser on the samples.
    Transcribe,
    /// Load the post-processing settings.
    LoadSettings,
    /// Send this text to the post-processing model.
    Correct(String),
    /// Type this text at the cursor.
    Type(String),
}

/// A command, with its text as a sequence of characters.
pub enum CommandModel {
    Nothing,
    ReportBusy,
    ReportNoAudio,
    OpenAudio,
    StartCapture,
    StopCapture,
    CollectAudio,
    Transcribe,
    LoadSettings,
    Correct(Seq<char>),
    Type(Seq<char>),
}

impl View for Command {
    type V = CommandModel;

    open spec fn view(&self) -> CommandModel {
        match self {
            Command::Nothing => CommandModel::Nothing,
            Command::ReportBusy => CommandModel::ReportBusy,
            Command::ReportNoAudio => CommandModel::ReportNoAudio,
            Command::OpenAudio => CommandModel::OpenAudio,
            Command::StartCapture => CommandModel::StartCapture,
            Command::StopCapture => CommandModel::StopCapture,
            Command::CollectAudio => CommandModel::CollectAudio,
            Command::Transcribe => CommandModel::Transcribe,
            Command::LoadSettings => CommandModel::LoadSettings,
            Command::Correct(t) => CommandModel::Correct(t@),
            Command::Type(t) => CommandModel::Type(t@),
        }
    }
}

/// What the app does after one step: the status to announce, whether to show
/// or hide the overlay, and the next outside step.
#[derive(Debug)]
pub struct Reaction {
    pub emit: Option<Status>,
    pub show_overlay: bool,
    pub hide_overlay: bool,
    pub command: Command,
}

/// A reaction, with its command viewed.
pub struct ReactionModel {
    pub emit: Option<Status>,
    pub show_overlay: bool,
    pub hide_overlay: bool,
    pub command: CommandModel,
}

impl View for Reaction {
    type V = ReactionModel;

    open spec fn view(&self) -> ReactionModel {
        ReactionModel {
            emit: self.emit,
            show_overlay: self.show_overlay,
            hide_overlay: self.hide_overlay,
            command: self.command@,
        }
    }
}

/// The state of push-to-talk: whether the recording permit is free, whether
/// an audio input is open, whether a capture is running (it has a start
/// time), and the stage.
pub struct SessionModel {
    pub permit_free: bool,
    pub audio_ready: bool,
    pub recording_started: bool,
    pub stage: StageModel,
}

/// A reaction that only asks for `command`.
pub open spec fn plain(command: CommandModel) -> ReactionModel {
    ReactionModel { emit: None, show_overlay: false, hide_overlay: false, command }
}

/// A reaction that hides the overlay, may announce `emit`, and waits.
pub open spec fn close(emit: Option<Status>) -> ReactionModel {
    ReactionModel { emit, show_overlay: false, hide_overlay: true, command: CommandModel::Nothing }
}

/// One step of push-to-talk: the state and reaction after `e` in state `s`.
/// A press takes the permit; every path that ends a press or a release gives
/// it back. Events that do not belong to the current stage change nothing.
pub open spec fn step(s: SessionModel, e: EventModel) -> (SessionModel, ReactionModel) {
    let done = SessionModel { permit_free: true, stage: StageModel::Idle, ..s };
    match (s.stage, e) {
        (StageModel::Idle, EventModel::KeyDown) => if !s.permit_free {
            (s, plain(CommandModel::ReportBusy))
        } else if s.audio_ready {
            (
                SessionModel { permit_free: false, stage: StageModel::StartingCapture, ..s },
                ReactionModel {
                    emit: None,
                    show_overlay: true,
                    hide_overlay: false,
                    command: CommandModel::StartCapture,
                },
            )
        } else {
            (
                SessionModel { permit_free: false, stage: StageModel::OpeningAudio, ..s },
                ReactionModel {
                    emit: None,
                    show_overlay: true,
                    hide_overlay: false,
                    command: CommandModel::OpenAudio,
                },
            )
        },
        (StageModel::OpeningAudio, EventModel::AudioOpened(ok)) => if ok {
            (
                SessionModel { audio_ready: true, stage: StageModel::StartingCapture, ..s },
                plain(CommandModel::StartCapture),
            )
        } else {
            (done, close(None))
        },
        (StageModel::StartingCapture, EventModel::CaptureStarted(ok)) => if ok {
            (
                SessionModel { recording_started: true, stage: StageModel::Idle, ..s },
                ReactionModel {
                    emit: Some(Status::Listening),
                    show_overlay: false,
                    hide_overlay: false,
                    command: CommandModel::Nothing,
                },
            )
        } else {
            (done, close(None))
        },
        (StageModel::Idle, EventModel::KeyUp) => if !s.audio_ready {
            (s, plain(CommandModel::ReportNoAudio))
        } else {
            (
                SessionModel { stage: StageModel::StoppingCapture, ..s },
                plain(CommandModel::StopCapture),
            )
        },
        (StageModel::StoppingCapture, EventModel::CaptureStopped(elapsed)) => if s.recording_started
            && elapsed < min_recording_nanos() {
            (SessionModel { recording_started: false, ..done }, close(Some(Status::Ready)))
        } else {
            (
                SessionModel {
                    recording_started: false,
                    stage: StageModel::CollectingAudio,
                    ..s
                },
                ReactionModel {
                    emit: Some(Status::Transcribing),
                    show_overlay: false,
                    hide_overlay: false,
                    command: CommandModel::CollectAudio,
                },
            )
        },
        (StageModel::CollectingAudio, EventModel::AudioCollected(ok)) => if ok {
            (SessionModel { stage: StageModel::Transcribing, ..s }, plain(CommandModel::Transcribe))
        } else {
            (done, close(Some(Status::Ready)))
        },
        (StageModel::Transcribing, EventModel::Transcribed(segments)) => match segments {
            Some(segs) => if segs.len() > 0 {
                (
                    SessionModel {
                        stage: StageModel::LoadingSettings(transcription_text(segs)),
                        ..s
                    },
                    plain(CommandModel::LoadSettings),
                )
            } else {
                (done, close(Some(Status::Ready)))
            },
            None => (done, close(Some(Status::Ready))),
        },
        (StageModel::LoadingSettings(t), EventModel::SettingsLoaded(enabled)) => if enabled {
            (
                SessionModel { stage: StageModel::Correcting(t), ..s },
                ReactionModel {
                    emit: Some(Status::Correcting),
                    show_overlay: false,
                    hide_overlay: false,
                    command: CommandModel::Correct(t),
                },
            )
        } else {
            (SessionModel { stage: StageModel::Typing, ..s }, plain(CommandModel::Type(t)))
        },
        (StageModel::Correcting(t), EventModel::Corrected(r)) => (
            SessionModel { stage: StageModel::Typing, ..s },
            ReactionModel {
                emit: if r is Ok {
                    None
                } else {
                    Some(Status::Ready)
                },
                show_overlay: false,
                hide_overlay: false,
                command: CommandModel::Type(text_to_type(t, r)),
            },
        ),
        (StageModel::Typing, EventModel::Typed(_)) => (done, close(Some(Status::Ready))),
        _ => (s, plain(CommandModel::Nothing)),
    }
}

/// The state after the events `events`, taken one after the other from `s`.
pub open spec fn run(s: SessionModel, events: Seq<EventModel>) -> SessionModel
    decreases events.len(),
{
    if events.len() == 0 {
        s
    } else {
        step(run(s, events.drop_last()), events.last()).0
    }
}

/// The state of a new session.
pub open spec fn initial(audio_ready: bool) -> SessionModel {
    SessionModel { permit_free: true, audio_ready, recording_started: false, stage: StageModel::Idle }
}

/// Whether the session is between stopping a capture and the end of its release.
pub open spec fn releasing(stage: StageModel) -> bool {
    ||| stage is StoppingCapture
    ||| stage is CollectingAudio
    ||| stage is Transcribing
    ||| stage is LoadingSettings
    ||| stage is Correcting
    ||| stage is Typing
}

/// What holds in every state a session can reach: a running capture holds
/// the permit and an open audio input; a press that is opening the audio
/// input or starting the capture holds the permit; a release runs on an open
/// audio input, and past stopping the capture no capture is running; an idle
/// session without an audio input has its permit free.
pub open spec fn consistent(s: SessionModel) -> bool {
    &&& s.recording_started ==> !s.permit_free && s.audio_ready
    &&& (s.stage is OpeningAudio || s.stage is StartingCapture) ==> !s.permit_free
        && !s.recording_started
    &&& s.stage is StartingCapture ==> s.audio_ready
    &&& releasing(s.stage) ==> s.audio_ready
    &&& (releasing(s.stage) && !(s.stage is StoppingCapture)) ==> !s.recording_started
    &&& (s.stage is Idle && !s.audio_ready) ==> s.permit_free
}

/// Push-to-talk state of the app.
#[derive(Debug)]
pub struct Session {
    permit_free: bool,
    audio_ready: bool,
    recording_started: bool,
    stage: Stage,
}

impl View for Session {
    type V = SessionModel;

    closed spec fn view(&self) -> SessionModel {
        SessionModel {
            permit_free: self.permit_free,
            audio_ready: self.audio_ready,
            recording_started: self.recording_started,
            stage: self.stage@,
        }
    }
}

fn reaction(emit: Option<Status>, show_overlay: bool, hide_overlay: bool, command: Command) -> (r:
    Reaction)
    ensures
        r@ == (ReactionModel { emit, show_overlay, hide_overlay, command: command@ }),
{
    Reaction { emit, show_overlay, hide_overlay, command }
}

impl Session {
    /// A session with its recording permit free, idle; `audio_ready` tells
    /// whether an audio input could be opened at start-up.
    pub fn new(audio_ready: bool) -> (s: Session)
        ensures
            s@ == initial(audio_ready),
    {
        Session { permit_free: true, audio_ready, recording_started: false, stage: Stage::Idle }
    }

    /// Whether the session waits for the push-to-talk key.
    pub fn is_idle(&self) -> (b: bool)
        ensures
            b == (self@.stage is Idle),
    {
        match self.stage {
            Stage::Idle => true,
            _ => false,
        }
    }

    /// Takes one event and says what the app does next.
    pub fn handle(&mut self, event: Event) -> (r: Reaction)
        ensures
            (final(self)@, r@) == step(old(self)@, event@),
    {
        let mut stage = Stage::Idle;
        std::mem::swap(&mut stage, &mut self.stage);
        match (stage, event) {
            (Stage::Idle, Event::KeyDown) => {
                if !self.permit_free {
                    reaction(None, false, false, Command::ReportBusy)
                } else if self.audio_ready {
                    self.permit_free = false;
                    self.stage = Stage::StartingCapture;
                    reaction(None, true, false, Command::StartCapture)
                } else {
                    self.permit_free = false;
                    self.stage = Stage::OpeningAudio;
                    reaction(None, true, false, Command::OpenAudio)
                }
            },
            (Stage::OpeningAudio, Event::AudioOpened(ok)) => {
                if ok {
                    self.audio_ready = true;
                    self.stage = Stage::StartingCapture;
                    reaction(None, false, false, Command::StartCapture)
                } else {
                    self.permit_free = true;
                    reaction(None, false, true, Command::Nothing)
                }
            },
            (Stage::StartingCapture, Event::CaptureStarted(ok)) => {
                if ok {
                    self.recording_started = true;
                    reaction(Some(Status::Listening), false, false, Command::Nothing)
                } else {
                    self.permit_free = true;
                    reaction(None, false, true, Command::Nothing)
                }
            },
            (Stage::Idle, Event::KeyUp) => {
                if !self.audio_ready {
                    reaction(None, false, false, Command::ReportNoAudio)
                } else {
                    self.stage = Stage::StoppingCapture;
                    reaction(None, false, false, Command::StopCapture)
                }
            },
            (Stage::StoppingCapture, Event::CaptureStopped { elapsed_secs, elapsed_subsec_nanos }) => {
                let started = self.recording_started;
                self.recording_started = false;
                if started && elapsed_secs == 0 && elapsed_subsec_nanos < 1_000_000_000 {
                    self.permit_free = true;
                    reaction(Some(Status::Ready), false, true, Command::Nothing)
                } else {
                    assert(started ==> (elapsed_secs as nat) * 1_000_000_000
                        + (elapsed_subsec_nanos as nat) >= min_recording_nanos()) by (nonlinear_arith)
                        requires
                            started ==> !(elapsed_secs == 0 && elapsed_subsec_nanos < 1_000_000_000),
                    ;
                    self.stage = Stage::CollectingAudio;
                    reaction(Some(Status::Transcribing), false, false, Command::CollectAudio)
                }
            },
            (Stage::CollectingAudio, Event::AudioCollected(ok)) => {
                if ok {
                    self.stage = Stage::Transcribing;
                    reaction(None, false, false, Command::Transcribe)
                } else {
                    self.permit_free = true;
                    reaction(Some(Status::Ready), false, true, Command::Nothing)
                }
            },
            (Stage::Transcribing, Event::Transcribed(segments)) => {
                match segments {
                    Some(segs) => {
                        if segs.len() > 0 {
                            let text = assemble_transcription(&segs);
                            self.stage = Stage::LoadingSettings(text);
                            reaction(None, false, false, Command::LoadSettings)
                        } else {
                            self.permit_free = true;
                            reaction(Some(Status::Ready), false, true, Command::Nothing)
                        }
                    },
                    None => {
                        self.permit_free = true;
                        reaction(Some(Status::Ready), false, true, Command::Nothing)
                    },
                }
            },
            (Stage::LoadingSettings(t), Event::SettingsLoaded(enabled)) => {
                if enabled {
                    let sent = t.clone();
                    self.stage = Stage::Correcting(t);
                    reaction(Some(Status::Correcting), false, false, Command::Correct(sent))
                } else {
                    self.stage = Stage::Typing;
                    reaction(None, false, false, Command::Type(t))
                }
            },
            (Stage::Correcting(t), Event::Corrected(r)) => {
                self.stage = Stage::Typing;
                let emit = if r.is_ok() {
                    None
                } else {
                    Some(Status::Ready)
                };
                reaction(emit, false, false, Command::Type(corrected_or_raw(t, r)))
            },
            (Stage::Typing, Event::Typed(_)) => {
                self.permit_free = true;
                reaction(Some(Status::Ready), false, true, Command::Nothing)
            },
            (other, _) => {
                self.stage = other;
                reaction(None, false, false, Command::Nothing)
            },
        }
    }
}

/// A press while the recording permit is taken is refused and changes nothing.
pub proof fn lemma_press_refused_without_permit(s: SessionModel)
    requires
        s.stage is Idle,
        !s.permit_free,
    ensures
        step(s, EventModel::KeyDown) == (s, plain(CommandModel::ReportBusy)),
{
}

/// Every step keeps a reachable state consistent.
pub proof fn lemma_step_consistent(s: SessionModel, e: EventModel)
    requires
        consistent(s),
    ensures
        consistent(step(s, e).0),
{
}

/// Every state a new session reaches is consistent.
pub proof fn lemma_reachable_consistent(audio_ready: bool, events: Seq<EventModel>)
    ensures
        consistent(run(initial(audio_ready), events)),
    decreases events.len(),
{
    if events.len() > 0 {
        lemma_reachable_consistent(audio_ready, events.drop_last());
        lemma_step_consistent(run(initial(audio_ready), events.drop_last()), events.last());
    }
}

/// One capture at a time: in every state a new session reaches, while a
/// capture is running the permit is taken, and a press is refused without
/// starting another capture or changing anything.
pub proof fn lemma_one_capture_at_a_time(audio_ready: bool, events: Seq<EventModel>)
    ensures
        ({
            let s = run(initial(audio_ready), events);
            s.recording_started ==> !s.permit_free && (s.stage is Idle ==> step(
                s,
                EventModel::KeyDown,
            ) == (s, plain(CommandModel::ReportBusy)))
        }),
{
    lemma_reachable_consistent(audio_ready, events);
}

/// A press with a free permit takes it and shows the overlay; when the audio
/// input cannot be opened, or capture cannot start, the permit is given back,
/// the overlay hidden and the session is idle again.
pub proof fn lemma_failed_start_returns_permit(s: SessionModel)
    requires
        s.stage is Idle,
        s.permit_free,
    ensures
        !step(s, EventModel::KeyDown).0.permit_free,
        step(s, EventModel::KeyDown).1.show_overlay,
        !s.audio_ready ==> {
            let after = step(step(s, EventModel::KeyDown).0, EventModel::AudioOpened(false));
            &&& after.0 == s
            &&& after.1.hide_overlay
        },
        s.audio_ready ==> {
            let after = step(step(s, EventModel::KeyDown).0, EventModel::CaptureStarted(false));
            &&& after.0 == s
            &&& after.1.hide_overlay
        },
        !s.audio_ready ==> {
            let opened = step(step(s, EventModel::KeyDown).0, EventModel::AudioOpened(true)).0;
            let after = step(opened, EventModel::CaptureStarted(false));
            &&& after.0 == SessionModel { audio_ready: true, ..s }
            &&& after.1.hide_overlay
        },
{
}

/// A release that has run to its end frees the permit: every step that takes
/// a reachable session from stopping the capture, or from any later stage, back to
/// idle leaves the permit free and hides the overlay, whichever way the
/// release ended (too short, no samples, nothing recognised, recognition or
/// typing failed, or the text was typed).
pub proof fn lemma_release_frees_permit(s: SessionModel, e: EventModel)
    requires
        consistent(s),
        releasing(s.stage),
        step(s, e).0.stage is Idle,
    ensures
        step(s, e).0.permit_free,
        !step(s, e).0.recording_started,
        step(s, e).1.hide_overlay,
        step(s, e).1.emit == Some(Status::Ready),
{
}

/// The session after a whole dictation from an idle session with an open
/// audio input: press, capture starts, release after `elapsed` nanoseconds,
/// samples available, `segments` recognised, settings loaded with
/// post-processing `enabled`, the model answers `outcome` (only asked when
/// enabled), and typing succeeds. Also the text that was typed.
pub open spec fn dictation(
    s: SessionModel,
    elapsed: nat,
    segments: Seq<Seq<char>>,
    enabled: bool,
    outcome: Result<Seq<char>, Seq<char>>,
) -> (SessionModel, CommandModel) {
    let s1 = step(s, EventModel::KeyDown).0;
    let s2 = step(s1, EventModel::CaptureStarted(true)).0;
    let s3 = step(s2, EventModel::KeyUp).0;
    let s4 = step(s3, EventModel::CaptureStopped(elapsed)).0;
    let s5 = step(s4, EventModel::AudioCollected(true)).0;
    let s6 = step(s5, EventModel::Transcribed(Some(segments))).0;
    let (s7, r7) = step(s6, EventModel::SettingsLoaded(enabled));
    let (s8, typed) = if enabled {
        let (s8, r8) = step(s7, EventModel::Corrected(outcome));
        (s8, r8.command)
    } else {
        (s7, r7.command)
    };
    (step(s8, EventModel::Typed(true)).0, typed)
}

/// A dictation that lasts at least the minimum time and yields text types the
/// model's correction when post-processing is enabled and succeeds, and the
/// raw transcription otherwise; afterwards the session is idle and its
/// recording permit is free again.
pub proof fn lemma_dictation_types_correction_or_raw(
    s: SessionModel,
    elapsed: nat,
    segments: Seq<Seq<char>>,
    enabled: bool,
    outcome: Result<Seq<char>, Seq<char>>,
)
    requires
        s.stage is Idle,
        s.permit_free,
        s.audio_ready,
        elapsed >= min_recording_nanos(),
        segments.len() > 0,
    ensures
        dictation(s, elapsed, segments, enabled, outcome).0 == (SessionModel {
            recording_started: false,
            ..s
        }),
        dictation(s, elapsed, segments, enabled, outcome).1 == CommandModel::Type(
            match (enabled, outcome) {
                (true, Ok(c)) => c,
                _ => transcription_text(segments),
            },
        ),
{
}

/// With post-processing enabled, the model is asked to correct exactly the
/// text that would be typed with it disabled: the whole transcription held
/// by the session, not a part of it.
pub proof fn lemma_correction_gets_whole_text(s: SessionModel, t: Seq<char>)
    requires
        s.stage == StageModel::LoadingSettings(t),
    ensures
        step(s, EventModel::SettingsLoaded(false)).1.command == CommandModel::Type(t),
        step(s, EventModel::SettingsLoaded(true)).1.command == CommandModel::Correct(t),
{
}

/// In a dictation with post-processing enabled, what is sent for correction
/// is the transcription of all recognised segments, and the same text that a
/// dictation with post-processing disabled types.
pub proof fn lemma_dictation_sends_whole_transcription(
    s: SessionModel,
    elapsed: nat,
    segments: Seq<Seq<char>>,
)
    requires
        s.stage is Idle,
        s.permit_free,
        s.audio_ready,
        elapsed >= min_recording_nanos(),
        segments.len() > 0,
    ensures
        ({
            let s1 = step(s, EventModel::KeyDown).0;
            let s2 = step(s1, EventModel::CaptureStarted(true)).0;
            let s3 = step(s2, EventModel::KeyUp).0;
            let s4 = step(s3, EventModel::CaptureStopped(elapsed)).0;
            let s5 = step(s4, EventModel::AudioCollected(true)).0;
            let s6 = step(s5, EventModel::Transcribed(Some(segments))).0;
            &&& step(s6, EventModel::SettingsLoaded(true)).1.command == CommandModel::Correct(
                transcription_text(segments),
            )
            &&& step(s6, EventModel::SettingsLoaded(false)).1.command == CommandModel::Type(
                transcription_text(segments),
            )
        }),
{
}

/// A recording released before the minimum time is dropped: nothing is
/// transcribed or typed, `Ready` is announced, the overlay hidden, and the
/// permit is free again for the next press.
pub proof fn lemma_short_recording_dropped(s: SessionModel, elapsed: nat)
    requires
        s.stage is Idle,
        s.permit_free,
        s.audio_ready,
        elapsed < min_recording_nanos(),
    ensures
        ({
            let s1 = step(s, EventModel::KeyDown).0;
            let s2 = step(s1, EventModel::CaptureStarted(true)).0;
            let s3 = step(s2, EventModel::KeyUp).0;
            let (s4, r4) = step(s3, EventModel::CaptureStopped(elapsed));
            &&& s4 == SessionModel { recording_started: false, ..s }
            &&& r4 == close(Some(Status::Ready))
        }),
{
}

} // verus!
