//! What a child process reports and what is told about it.
use vstd::prelude::*;
use vstd::string::*;
use vstd::utf8::*;

verus! {

/// The stream of a child on which a chunk of output arrived.
#[derive(Clone, Copy, Debug, PartialEq, Eq)]
pub enum OutputStream {
    Stdout,
    Stderr,
}

/// A chunk of a run's output, decoded to text.
#[derive(Clone, Debug, PartialEq, Eq)]
pub struct RunnerOutput {
    pub id: String,
    pub stream: OutputStream,
    pub data: String,
}

/// The end of a run, with the exit code where the process reported one.
#[derive(Clone, Debug, PartialEq, Eq)]
pub struct RunnerExit {
    pub id: String,
    pub code: Option<i32>,
}

/// A notification about a run.
#[derive(Clone, Debug, PartialEq, Eq)]
pub enum RunnerEvent {
    Output(RunnerOutput),
    Exit(RunnerExit),
}

/// What the process layer reports of a child.
#[derive(Clone, Debug, PartialEq, Eq)]
pub enum ChildEvent {
    /// Bytes that the child wrote to its standard output.
    Stdout(Vec<u8>),
    /// Bytes that the child wrote to its standard error.
    Stderr(Vec<u8>),
    /// The child has ended; the code is absent when a signal ended it.
    Terminated(Option<i32>),
    /// Any other report.
    Other,
}

/// The mathematical content of a [`RunnerEvent`].
pub ghost enum EventModel {
    Output { id: Seq<char>, stream: OutputStream, data: Seq<char> },
    Exit { id: Seq<char>, code: Option<i32> },
}

/// The mathematical content of a [`ChildEvent`].
pub ghost enum ChildEventModel {
    Stdout(Seq<u8>),
    Stderr(Seq<u8>),
    Terminated(Option<i32>),
    Other,
}

impl View for RunnerOutput {
    type V = EventModel;

    open spec fn view(&self) -> EventModel {
        EventModel::Output { id: self.id@, stream: self.stream, data: self.data@ }
    }
}

impl View for RunnerExit {
    type V = EventModel;

    open spec fn view(&self) -> EventModel {
        EventModel::Exit { id: self.id@, code: self.code }
    }
}

impl View for RunnerEvent {
    type V = EventModel;

    open spec fn view(&self) -> EventModel {
        match self {
            RunnerEvent::Output(output) => output@,
            RunnerEvent::Exit(exit) => exit@,
        }
    }
}

impl View for ChildEvent {
    type V = ChildEventModel;

    open spec fn view(&self) -> ChildEventModel {
        match self {
            ChildEvent::Stdout(bytes) => ChildEventModel::Stdout(bytes@),
            ChildEvent::Stderr(bytes) => ChildEventModel::Stderr(bytes@),
            ChildEvent::Terminated(code) => ChildEventModel::Terminated(*code),
            ChildEvent::Other => ChildEventModel::Other,
        }
    }
}

/// The character that stands in for bytes that are not text.
pub open spec fn replacement_character() -> char {
    '\u{FFFD}'
}

/// What lenient decoding promises of the text it makes of `bytes`: bytes that
/// are text give that text, and bytes that are not give a text that holds the
/// replacement character, so it is never empty.
pub open spec fn lenient(bytes: Seq<u8>, text: Seq<char>) -> bool {
    &&& valid_utf8(bytes) ==> text == decode_utf8(bytes)
    &&& !valid_utf8(bytes) ==> text.contains(replacement_character())
}

/// The name of the channel on which a notification is delivered.
pub open spec fn channel_name(event: EventModel) -> Seq<char> {
    match event {
        EventModel::Output { stream: OutputStream::Stdout, .. } => "runner-stdout"@,
        EventModel::Output { stream: OutputStream::Stderr, .. } => "runner-stderr"@,
        EventModel::Exit { .. } => "runner-exit"@,
    }
}

impl RunnerEvent {
    /// The channel on which this notification is delivered.
    pub fn channel(&self) -> (name: String)
        ensures
            name@ == channel_name(self@),
    {
        match self {
            RunnerEvent::Output(output) => match output.stream {
                OutputStream::Stdout => String::from_str("runner-stdout"),
                OutputStream::Stderr => String::from_str("runner-stderr"),
            },
            RunnerEvent::Exit(_) => String::from_str("runner-exit"),
        }
    }

    /// The run that this notification is about.
    pub fn id(&self) -> (id: &String)
        ensures
            id@ == event_id(self@),
    {
        match self {
            RunnerEvent::Output(output) => &output.id,
            RunnerEvent::Exit(exit) => &exit.id,
        }
    }
}

/// The run that a notification is about.
pub open spec fn event_id(event: EventModel) -> Seq<char> {
    match event {
        EventModel::Output { id, .. } => id,
        EventModel::Exit { id, .. } => id,
    }
}

/// The text that lenient decoding makes of `bytes`.
pub uninterp spec fn lossy_text(bytes: Seq<u8>) -> Seq<char>;

/// Decodes output bytes to text without ever failing.
///
/// Trusted: the body is `String::from_utf8_lossy`. Its documentation says
/// that valid UTF-8 is returned as the text it encodes and that every invalid
/// sequence is replaced by U+FFFD; the contract claims these two facts and
/// that the result depends on the bytes alone.
#[verifier::external_body]
pub(crate) fn decode_lossy(bytes: &[u8]) -> (text: String)
    ensures
        text@ == lossy_text(bytes@),
        lenient(bytes@, text@),
{
    String::from_utf8_lossy(bytes).into_owned()
}

} // verus!
