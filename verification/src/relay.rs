//! The WebSocket relay: one outbound connection on which a script of text
//! messages is sent and the answers are collected for a while.
//!
//! The relay is a state machine. `begin` checks the URL and asks for the
//! connection; `step` takes the session through its phases as the caller
//! reports what happened: connecting, then sending the script one message at
//! a time with a pause after each, then listening until the window closes,
//! then completed. A connection that cannot be made is the only failure; a
//! send that fails ends the sending and nothing else.

use vstd::prelude::*;
use crate::settings::Settings;
use crate::text::{labelled, owned};

verus! {

/// `url::Url`, carried through without a look inside.
#[verifier::external_type_specification]
#[verifier::external_body]
pub struct ExUrl(url::Url);

/// `url::ParseError`, carried through without a look inside.
#[verifier::external_type_specification]
#[verifier::external_body]
pub struct ExUrlParseError(url::ParseError);

/// What a URL holds: its serialization, the text that `url::Url::as_str`
/// returns.
pub uninterp spec fn url_text(target: url::Url) -> Seq<char>;

/// What an error holds: the sentence that a `url::ParseError` displays.
pub uninterp spec fn url_error_text(error: url::ParseError) -> Seq<char>;

/// What `url::Url::parse` makes of a text: the URL it spells, or the reason
/// it spells none.
pub uninterp spec fn url_parse(text: Seq<char>) -> Result<Seq<char>, Seq<char>>;

/// The outcome of a parse, as contracts see it.
pub open spec fn url_view(parsed: Result<url::Url, url::ParseError>) -> Result<
    Seq<char>,
    Seq<char>,
> {
    match parsed {
        Ok(target) => Ok(url_text(target)),
        Err(error) => Err(url_error_text(error)),
    }
}

/// Calls `url::Url::parse`, which depends on nothing but the text.
#[verifier::external_body]
fn parse_url(text: &str) -> (parsed: Result<url::Url, url::ParseError>)
    ensures
        match parsed {
            Ok(target) => url_parse(text@) == Ok::<Seq<char>, Seq<char>>(url_text(target)),
            Err(error) => url_parse(text@) == Err::<Seq<char>, Seq<char>>(url_error_text(error)),
        },
{
    url::Url::parse(text)
}

/// Formats a `url::ParseError` with its `Display` impl.
#[verifier::external_body]
fn describe_url_error(error: &url::ParseError) -> (text: String)
    ensures
        text@ == url_error_text(*error),
{
    format!("{}", error)
}

/// What a caller asks of the relay.
#[derive(Debug, Clone, PartialEq)]
pub struct WebSocketRequest {
    /// Where to connect.
    pub url: String,
    /// The messages to send, in order.
    pub messages: Vec<String>,
    /// Seconds to listen after sending, if the caller cares.
    pub duration: Option<u64>,
}

/// A `WebSocketRequest` as contracts see it.
pub struct RelayRequestModel {
    pub url: Seq<char>,
    pub messages: Seq<Seq<char>>,
    pub duration: Option<u64>,
}

impl View for WebSocketRequest {
    type V = RelayRequestModel;

    open spec fn view(&self) -> RelayRequestModel {
        RelayRequestModel {
            url: self.url@,
            messages: self.messages.deep_view(),
            duration: self.duration,
        }
    }
}

/// Which way a message went.
#[derive(Debug, Clone, Copy, PartialEq, Eq, Structural)]
pub enum Direction {
    Sent,
    Received,
}

impl Direction {
    /// The word that stands for the direction in a transcript.
    pub open spec fn word(self) -> Seq<char> {
        match self {
            Direction::Sent => "sent"@,
            Direction::Received => "received"@,
        }
    }

    /// The word that stands for the direction in a transcript.
    pub fn label(&self) -> (word: &'static str)
        ensures
            word@ == self.word(),
    {
        match self {
            Direction::Sent => "sent",
            Direction::Received => "received",
        }
    }
}

/// One entry of a transcript.
#[derive(Debug, Clone, PartialEq)]
pub struct WebSocketMessage {
    /// Which way the message went.
    pub direction: Direction,
    /// The text of the message.
    pub content: String,
    /// When it went, as an RFC 3339 instant.
    pub timestamp: String,
}

/// A `WebSocketMessage` as contracts see it.
pub struct MessageModel {
    pub direction: Direction,
    pub content: Seq<char>,
    pub timestamp: Seq<char>,
}

impl DeepView for WebSocketMessage {
    type V = MessageModel;

    open spec fn deep_view(&self) -> MessageModel {
        MessageModel {
            direction: self.direction,
            content: self.content@,
            timestamp: self.timestamp@,
        }
    }
}

/// What a session amounts to once it is over.
#[derive(Debug, Clone, PartialEq)]
pub struct WebSocketResponse {
    /// The transcript: every message in the order in which it occurred.
    pub messages: Vec<WebSocketMessage>,
    /// Always `completed`.
    pub status: String,
    /// Milliseconds from accepting the request to the end of listening.
    pub duration_ms: u64,
}

/// A `WebSocketResponse` as contracts see it.
pub struct RelayResultModel {
    pub messages: Seq<MessageModel>,
    pub status: Seq<char>,
    pub duration_ms: u64,
}

impl View for WebSocketResponse {
    type V = RelayResultModel;

    open spec fn view(&self) -> RelayResultModel {
        RelayResultModel {
            messages: self.messages.deep_view(),
            status: self.status@,
            duration_ms: self.duration_ms,
        }
    }
}

/// Why the relay could not run a session.
#[derive(Debug, Clone, PartialEq)]
pub enum RelayError {
    /// The URL could not be parsed.
    InvalidUrl { reason: String },
    /// The connection could not be made.
    ConnectFailure { reason: String },
}

/// A `RelayError` as contracts see it.
pub enum RelayErrorModel {
    InvalidUrl { reason: Seq<char> },
    ConnectFailure { reason: Seq<char> },
}

impl View for RelayError {
    type V = RelayErrorModel;

    open spec fn view(&self) -> RelayErrorModel {
        match self {
            RelayError::InvalidUrl { reason } => RelayErrorModel::InvalidUrl { reason: reason@ },
            RelayError::ConnectFailure { reason } => RelayErrorModel::ConnectFailure {
                reason: reason@,
            },
        }
    }
}

impl RelayErrorModel {
    /// The HTTP status the caller sees: 400 for a bad URL, 500 for a
    /// connection that could not be made.
    pub open spec fn status_code(self) -> u16 {
        match self {
            RelayErrorModel::InvalidUrl { .. } => 400,
            RelayErrorModel::ConnectFailure { .. } => 500,
        }
    }

    /// The sentence the caller sees.
    pub open spec fn message(self) -> Seq<char> {
        match self {
            RelayErrorModel::InvalidUrl { reason } => "Invalid WebSocket URL: "@ + reason,
            RelayErrorModel::ConnectFailure { reason } => "WebSocket connection failed: "@ + reason,
        }
    }
}

impl RelayError {
    /// The HTTP status to answer the caller with.
    pub fn status_code(&self) -> (code: u16)
        ensures
            code == self@.status_code(),
    {
        match self {
            RelayError::InvalidUrl { .. } => 400,
            RelayError::ConnectFailure { .. } => 500,
        }
    }

    /// The sentence to answer the caller with.
    pub fn message(&self) -> (text: String)
        ensures
            text@ == self@.message(),
    {
        match self {
            RelayError::InvalidUrl { reason } => labelled(
                "Invalid WebSocket URL: ",
                reason.as_str(),
            ),
            RelayError::ConnectFailure { reason } => labelled(
                "WebSocket connection failed: ",
                reason.as_str(),
            ),
        }
    }
}

/// A frame that arrived while listening.
#[derive(Debug, Clone, PartialEq)]
pub enum Frame {
    /// A text frame and what it says.
    Text { content: String },
    /// Any other frame.
    Other,
}

/// A `Frame` as contracts see it.
pub enum FrameModel {
    Text { content: Seq<char> },
    Other,
}

impl View for Frame {
    type V = FrameModel;

    open spec fn view(&self) -> FrameModel {
        match self {
            Frame::Text { content } => FrameModel::Text { content: content@ },
            Frame::Other => FrameModel::Other,
        }
    }
}

/// How listening came to an end.
#[derive(Debug, Clone, Copy, PartialEq, Eq, Structural)]
pub enum ListenEnd {
    /// The connection ended.
    Closed,
    /// A read failed.
    Broken,
    /// The listen window elapsed.
    Expired,
}

/// What the caller reports to the relay.
#[derive(Debug, Clone, PartialEq)]
pub enum RelayEvent {
    /// The connection stands.
    Connected,
    /// The connection could not be made.
    ConnectFailed { reason: String },
    /// The message was sent, at the instant `timestamp`.
    Sent { timestamp: String },
    /// The message could not be sent.
    SendFailed,
    /// The pause is over.
    PauseElapsed,
    /// A frame arrived, at the instant `timestamp`.
    FrameArrived { frame: Frame, timestamp: String },
    /// Listening is over, `elapsed_ms` after the request was accepted.
    ListenEnded { cause: ListenEnd, elapsed_ms: u64 },
}

/// A `RelayEvent` as contracts see it.
pub enum RelayEventModel {
    Connected,
    ConnectFailed { reason: Seq<char> },
    Sent { timestamp: Seq<char> },
    SendFailed,
    PauseElapsed,
    FrameArrived { frame: FrameModel, timestamp: Seq<char> },
    ListenEnded { cause: ListenEnd, elapsed_ms: u64 },
}

impl View for RelayEvent {
    type V = RelayEventModel;

    open spec fn view(&self) -> RelayEventModel {
        match self {
            RelayEvent::Connected => RelayEventModel::Connected,
            RelayEvent::ConnectFailed { reason } => RelayEventModel::ConnectFailed {
                reason: reason@,
            },
            RelayEvent::Sent { timestamp } => RelayEventModel::Sent { timestamp: timestamp@ },
            RelayEvent::SendFailed => RelayEventModel::SendFailed,
            RelayEvent::PauseElapsed => RelayEventModel::PauseElapsed,
            RelayEvent::FrameArrived { frame, timestamp } => RelayEventModel::FrameArrived {
                frame: frame@,
                timestamp: timestamp@,
            },
            RelayEvent::ListenEnded { cause, elapsed_ms } => RelayEventModel::ListenEnded {
                cause: *cause,
                elapsed_ms: *elapsed_ms,
            },
        }
    }
}

/// What the relay asks the caller to do.
#[derive(Debug, PartialEq)]
pub enum RelayAction {
    /// Connect to the URL and report whether the connection stands.
    Connect { target: url::Url },
    /// Send the text as one text frame and report whether it went out.
    Send { text: String },
    /// Wait this long and report when the time is over.
    Pause { millis: u64 },
    /// Start to listen: report each frame as it arrives, and the end of
    /// listening when the connection ends, a read fails or this many
    /// seconds have passed, whichever comes first.
    Listen { window_secs: u64 },
    /// Go on listening within the window that is open.
    KeepListening,
    /// Answer the caller with the result.
    Complete { result: WebSocketResponse },
    /// Answer the caller with the error.
    Fail { error: RelayError },
    /// Nothing: the event did not belong to the phase of the session.
    Ignore,
}

/// A `RelayAction` as contracts see it; the target is the URL's text.
pub enum RelayActionModel {
    Connect { target: Seq<char> },
    Send { text: Seq<char> },
    Pause { millis: u64 },
    Listen { window_secs: u64 },
    KeepListening,
    Complete { result: RelayResultModel },
    Fail { error: RelayErrorModel },
    Ignore,
}

impl View for RelayAction {
    type V = RelayActionModel;

    open spec fn view(&self) -> RelayActionModel {
        match self {
            RelayAction::Connect { target } => RelayActionModel::Connect {
                target: url_text(*target),
            },
            RelayAction::Send { text } => RelayActionModel::Send { text: text@ },
            RelayAction::Pause { millis } => RelayActionModel::Pause { millis: *millis },
            RelayAction::Listen { window_secs } => RelayActionModel::Listen {
                window_secs: *window_secs,
            },
            RelayAction::KeepListening => RelayActionModel::KeepListening,
            RelayAction::Complete { result } => RelayActionModel::Complete { result: result@ },
            RelayAction::Fail { error } => RelayActionModel::Fail { error: error@ },
            RelayAction::Ignore => RelayActionModel::Ignore,
        }
    }
}

/// The phase a session is in.
#[derive(Debug, Clone, Copy, PartialEq, Eq, Structural)]
pub enum RelayPhase {
    /// The connection was asked for.
    Connecting,
    /// A message is on its way out.
    Sending,
    /// A message went out and the pause after it is running.
    Pausing,
    /// The script is over and frames are being collected.
    Listening,
    /// The caller has its result.
    Completed,
    /// The caller has its error.
    Failed,
}

/// One relay session.
#[derive(Debug, PartialEq)]
pub struct RelaySession {
    /// The phase the session is in.
    pub phase: RelayPhase,
    /// The script: the messages to send, in order.
    pub messages: Vec<String>,
    /// How many messages of the script have gone out.
    pub sent: usize,
    /// The transcript so far.
    pub transcript: Vec<WebSocketMessage>,
    /// Seconds to listen once the script is over.
    pub window_secs: u64,
    /// Milliseconds to wait after each message.
    pub pause_ms: u64,
}

/// A `RelaySession` as contracts see it.
pub struct RelayModel {
    pub phase: RelayPhase,
    pub messages: Seq<Seq<char>>,
    pub sent: nat,
    pub transcript: Seq<MessageModel>,
    pub window_secs: u64,
    pub pause_ms: u64,
}

impl View for RelaySession {
    type V = RelayModel;

    open spec fn view(&self) -> RelayModel {
        RelayModel {
            phase: self.phase,
            messages: self.messages.deep_view(),
            sent: self.sent as nat,
            transcript: self.transcript.deep_view(),
            window_secs: self.window_secs,
            pause_ms: self.pause_ms,
        }
    }
}

/// One step of the relay: the state it leaves the session in and what the
/// caller is to do.
#[derive(Debug, PartialEq)]
pub struct RelayStep {
    pub next: RelaySession,
    pub action: RelayAction,
}

/// A `RelayStep` as contracts see it.
pub struct RelayStepModel {
    pub next: RelayModel,
    pub action: RelayActionModel,
}

impl View for RelayStep {
    type V = RelayStepModel;

    open spec fn view(&self) -> RelayStepModel {
        RelayStepModel { next: self.next@, action: self.action@ }
    }
}

/// How long a session listens: as long as the caller asked, or the
/// configured default.
pub open spec fn listen_window(duration: Option<u64>, settings: Settings) -> u64 {
    match duration {
        Some(secs) => secs,
        None => settings.default_listen_secs,
    }
}

/// A session in a phase, with everything else as it was.
pub open spec fn in_phase(session: RelayModel, phase: RelayPhase) -> RelayModel {
    RelayModel {
        phase,
        messages: session.messages,
        sent: session.sent,
        transcript: session.transcript,
        window_secs: session.window_secs,
        pause_ms: session.pause_ms,
    }
}

/// A session with one more entry in its transcript.
pub open spec fn with_entry(session: RelayModel, entry: MessageModel) -> RelayModel {
    RelayModel {
        phase: session.phase,
        messages: session.messages,
        sent: session.sent,
        transcript: session.transcript.push(entry),
        window_secs: session.window_secs,
        pause_ms: session.pause_ms,
    }
}

/// The first step of a session, given what the URL parsed to: a URL that
/// does not parse fails the session at once, any other is connected to.
pub open spec fn begin_with_model(
    request: RelayRequestModel,
    parsed: Result<Seq<char>, Seq<char>>,
    settings: Settings,
) -> RelayStepModel {
    let session = RelayModel {
        phase: RelayPhase::Connecting,
        messages: request.messages,
        sent: 0,
        transcript: Seq::empty(),
        window_secs: listen_window(request.duration, settings),
        pause_ms: settings.send_pause_ms,
    };
    match parsed {
        Ok(target) => RelayStepModel {
            next: session,
            action: RelayActionModel::Connect { target },
        },
        Err(reason) => RelayStepModel {
            next: in_phase(session, RelayPhase::Failed),
            action: RelayActionModel::Fail { error: RelayErrorModel::InvalidUrl { reason } },
        },
    }
}

/// The first step of a session.
pub open spec fn begin_model(request: RelayRequestModel, settings: Settings) -> RelayStepModel {
    begin_with_model(request, url_parse(request.url), settings)
}

/// What comes after the connection stands or a pause is over: the next
/// message of the script, or listening when the script is over.
pub open spec fn proceed_model(session: RelayModel) -> RelayStepModel {
    if session.sent < session.messages.len() {
        RelayStepModel {
            next: in_phase(session, RelayPhase::Sending),
            action: RelayActionModel::Send { text: session.messages[session.sent as int] },
        }
    } else {
        listen_model(session)
    }
}

/// The step into listening.
pub open spec fn listen_model(session: RelayModel) -> RelayStepModel {
    RelayStepModel {
        next: in_phase(session, RelayPhase::Listening),
        action: RelayActionModel::Listen { window_secs: session.window_secs },
    }
}

/// The step after a message went out: it is entered into the transcript
/// and a pause follows.
pub open spec fn sent_model(session: RelayModel, timestamp: Seq<char>) -> RelayStepModel {
    if session.sent < session.messages.len() {
        let entry = MessageModel {
            direction: Direction::Sent,
            content: session.messages[session.sent as int],
            timestamp,
        };
        RelayStepModel {
            next: RelayModel {
                phase: RelayPhase::Pausing,
                messages: session.messages,
                sent: session.sent + 1,
                transcript: session.transcript.push(entry),
                window_secs: session.window_secs,
                pause_ms: session.pause_ms,
            },
            action: RelayActionModel::Pause { millis: session.pause_ms },
        }
    } else {
        listen_model(session)
    }
}

/// The step after a frame arrived: a text frame is entered into the
/// transcript, any other frame is passed over.
pub open spec fn frame_model(
    session: RelayModel,
    frame: FrameModel,
    timestamp: Seq<char>,
) -> RelayStepModel {
    match frame {
        FrameModel::Text { content } => RelayStepModel {
            next: with_entry(
                session,
                MessageModel { direction: Direction::Received, content, timestamp },
            ),
            action: RelayActionModel::KeepListening,
        },
        FrameModel::Other => RelayStepModel {
            next: session,
            action: RelayActionModel::KeepListening,
        },
    }
}

/// The step that ends a session with its result: the transcript goes to
/// the caller and the session keeps none.
pub open spec fn complete_model(session: RelayModel, elapsed_ms: u64) -> RelayStepModel {
    RelayStepModel {
        next: RelayModel {
            phase: RelayPhase::Completed,
            messages: session.messages,
            sent: 0,
            transcript: Seq::empty(),
            window_secs: session.window_secs,
            pause_ms: session.pause_ms,
        },
        action: RelayActionModel::Complete {
            result: RelayResultModel {
                messages: session.transcript,
                status: "completed"@,
                duration_ms: elapsed_ms,
            },
        },
    }
}

/// What the relay does with an event.
pub open spec fn step_model(session: RelayModel, event: RelayEventModel) -> RelayStepModel {
    match (session.phase, event) {
        (RelayPhase::Connecting, RelayEventModel::Connected) => proceed_model(session),
        (RelayPhase::Connecting, RelayEventModel::ConnectFailed { reason }) => RelayStepModel {
            next: in_phase(session, RelayPhase::Failed),
            action: RelayActionModel::Fail {
                error: RelayErrorModel::ConnectFailure { reason },
            },
        },
        (RelayPhase::Sending, RelayEventModel::Sent { timestamp }) => sent_model(
            session,
            timestamp,
        ),
        (RelayPhase::Sending, RelayEventModel::SendFailed) => listen_model(session),
        (RelayPhase::Pausing, RelayEventModel::PauseElapsed) => proceed_model(session),
        (RelayPhase::Listening, RelayEventModel::FrameArrived { frame, timestamp }) => {
            frame_model(session, frame, timestamp)
        },
        (RelayPhase::Listening, RelayEventModel::ListenEnded { elapsed_ms, .. }) => {
            complete_model(session, elapsed_ms)
        },
        _ => RelayStepModel { next: session, action: RelayActionModel::Ignore },
    }
}

impl RelaySession {
    /// Puts the session into a phase.
    fn enter(self, phase: RelayPhase) -> (next: RelaySession)
        ensures
            next@ == in_phase(self@, phase),
    {
        RelaySession {
            phase,
            messages: self.messages,
            sent: self.sent,
            transcript: self.transcript,
            window_secs: self.window_secs,
            pause_ms: self.pause_ms,
        }
    }

    /// Starts to listen.
    fn listen(self) -> (taken: RelayStep)
        ensures
            taken@ == listen_model(self@),
    {
        let window_secs = self.window_secs;
        RelayStep {
            next: self.enter(RelayPhase::Listening),
            action: RelayAction::Listen { window_secs },
        }
    }

    /// Sends the next message of the script, or starts to listen when the
    /// script is over.
    fn proceed(self) -> (taken: RelayStep)
        ensures
            taken@ == proceed_model(self@),
    {
        if self.sent < self.messages.len() {
            let text = self.messages[self.sent].clone();
            RelayStep { next: self.enter(RelayPhase::Sending), action: RelayAction::Send { text } }
        } else {
            self.listen()
        }
    }

    /// Enters the message that went out into the transcript and pauses.
    fn record_sent(self, timestamp: String) -> (taken: RelayStep)
        ensures
            taken@ == sent_model(self@, timestamp@),
    {
        if self.sent < self.messages.len() {
            let entry = WebSocketMessage {
                direction: Direction::Sent,
                content: self.messages[self.sent].clone(),
                timestamp,
            };
            let ghost before = self.transcript.deep_view();
            let mut transcript = self.transcript;
            transcript.push(entry);
            assert(transcript.deep_view() =~= before.push(entry.deep_view()));
            RelayStep {
                next: RelaySession {
                    phase: RelayPhase::Pausing,
                    messages: self.messages,
                    sent: self.sent + 1,
                    transcript,
                    window_secs: self.window_secs,
                    pause_ms: self.pause_ms,
                },
                action: RelayAction::Pause { millis: self.pause_ms },
            }
        } else {
            self.listen()
        }
    }

    /// Enters a text frame into the transcript and passes over any other.
    fn record_frame(self, frame: Frame, timestamp: String) -> (taken: RelayStep)
        ensures
            taken@ == frame_model(self@, frame@, timestamp@),
    {
        match frame {
            Frame::Text { content } => {
                let entry = WebSocketMessage { direction: Direction::Received, content, timestamp };
                let ghost before = self.transcript.deep_view();
                let mut transcript = self.transcript;
                transcript.push(entry);
                assert(transcript.deep_view() =~= before.push(entry.deep_view()));
                RelayStep {
                    next: RelaySession {
                        phase: self.phase,
                        messages: self.messages,
                        sent: self.sent,
                        transcript,
                        window_secs: self.window_secs,
                        pause_ms: self.pause_ms,
                    },
                    action: RelayAction::KeepListening,
                }
            },
            Frame::Other => RelayStep { next: self, action: RelayAction::KeepListening },
        }
    }

    /// Ends the session with its result.
    fn complete(self, elapsed_ms: u64) -> (taken: RelayStep)
        ensures
            taken@ == complete_model(self@, elapsed_ms),
    {
        let emptied: Vec<WebSocketMessage> = Vec::new();
        assert(emptied.deep_view() =~= Seq::empty());
        RelayStep {
            next: RelaySession {
                phase: RelayPhase::Completed,
                messages: self.messages,
                sent: 0,
                transcript: emptied,
                window_secs: self.window_secs,
                pause_ms: self.pause_ms,
            },
            action: RelayAction::Complete {
                result: WebSocketResponse {
                    messages: self.transcript,
                    status: owned("completed"),
                    duration_ms: elapsed_ms,
                },
            },
        }
    }
}

/// Opens a session for a request whose URL has been parsed.
pub fn begin_with(
    request: WebSocketRequest,
    parsed: Result<url::Url, url::ParseError>,
    settings: &Settings,
) -> (taken: RelayStep)
    ensures
        taken@ == begin_with_model(request@, url_view(parsed), *settings),
{
    let window_secs = match request.duration {
        Some(secs) => secs,
        None => settings.default_listen_secs,
    };
    let transcript: Vec<WebSocketMessage> = Vec::new();
    assert(transcript.deep_view() =~= Seq::empty());
    let session = RelaySession {
        phase: RelayPhase::Connecting,
        messages: request.messages,
        sent: 0,
        transcript,
        window_secs,
        pause_ms: settings.send_pause_ms,
    };
    match parsed {
        Ok(target) => RelayStep { next: session, action: RelayAction::Connect { target } },
        Err(error) => {
            let reason = describe_url_error(&error);
            RelayStep {
                next: session.enter(RelayPhase::Failed),
                action: RelayAction::Fail { error: RelayError::InvalidUrl { reason } },
            }
        },
    }
}

/// Accepts a request and says what to do first.
pub fn begin(request: WebSocketRequest, settings: &Settings) -> (taken: RelayStep)
    ensures
        taken@ == begin_model(request@, *settings),
{
    let parsed = parse_url(request.url.as_str());
    begin_with(request, parsed, settings)
}

/// Takes the session one step further with what the caller reports.
pub fn step(session: RelaySession, event: RelayEvent) -> (taken: RelayStep)
    ensures
        taken@ == step_model(session@, event@),
{
    match session.phase {
        RelayPhase::Connecting => match event {
            RelayEvent::Connected => session.proceed(),
            RelayEvent::ConnectFailed { reason } => RelayStep {
                next: session.enter(RelayPhase::Failed),
                action: RelayAction::Fail { error: RelayError::ConnectFailure { reason } },
            },
            _ => RelayStep { next: session, action: RelayAction::Ignore },
        },
        RelayPhase::Sending => match event {
            RelayEvent::Sent { timestamp } => session.record_sent(timestamp),
            RelayEvent::SendFailed => session.listen(),
            _ => RelayStep { next: session, action: RelayAction::Ignore },
        },
        RelayPhase::Pausing => match event {
            RelayEvent::PauseElapsed => session.proceed(),
            _ => RelayStep { next: session, action: RelayAction::Ignore },
        },
        RelayPhase::Listening => match event {
            RelayEvent::FrameArrived { frame, timestamp } => session.record_frame(
                frame,
                timestamp,
            ),
            RelayEvent::ListenEnded { cause: _, elapsed_ms } => session.complete(elapsed_ms),
            _ => RelayStep { next: session, action: RelayAction::Ignore },
        },
        _ => RelayStep { next: session, action: RelayAction::Ignore },
    }
}

} // verus!
