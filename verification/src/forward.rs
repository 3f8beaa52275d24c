//! The forwarding loop of one run, one step at a time.
//!
//! The loop that drains a child's reports lives with the caller, which waits
//! for each report. What to do with a report is decided here: which
//! notification it becomes, and when the run leaves the table.
use vstd::prelude::*;
use crate::events::{ChildEvent, ChildEventModel, EventModel, OutputStream, RunnerEvent, RunnerExit, RunnerOutput, decode_lossy, lenient, lossy_text};
use crate::registry::RunnerManager;

verus! {

/// The state of the forwarding loop of one run.
pub struct Forwarder {
    id: String,
    finished: bool,
}

/// The mathematical content of a [`Forwarder`].
pub ghost struct ForwarderModel {
    /// The run whose reports are forwarded.
    pub id: Seq<char>,
    /// Whether the run's end has been forwarded.
    pub finished: bool,
}

impl View for Forwarder {
    type V = ForwarderModel;

    closed spec fn view(&self) -> ForwarderModel {
        ForwarderModel { id: self.id@, finished: self.finished }
    }
}

/// The notification that a report of the child of run `id` becomes: output
/// is decoded leniently and tagged with its stream, the end of the child
/// becomes the run's exit, anything else is passed over.
pub open spec fn notification(id: Seq<char>, report: ChildEventModel) -> Option<EventModel> {
    match report {
        ChildEventModel::Stdout(bytes) => Some(
            EventModel::Output { id, stream: OutputStream::Stdout, data: lossy_text(bytes) },
        ),
        ChildEventModel::Stderr(bytes) => Some(
            EventModel::Output { id, stream: OutputStream::Stderr, data: lossy_text(bytes) },
        ),
        ChildEventModel::Terminated(code) => Some(EventModel::Exit { id, code }),
        ChildEventModel::Other => None,
    }
}

/// What a loop in state `state` tells about `report`: nothing once it has
/// finished, the report's notification before.
pub open spec fn told(state: ForwarderModel, report: ChildEventModel) -> Option<EventModel> {
    if state.finished {
        None
    } else {
        notification(state.id, report)
    }
}

/// The state of the loop after `report`: the end of the child finishes it.
pub open spec fn advanced(state: ForwarderModel, report: ChildEventModel) -> ForwarderModel {
    ForwarderModel { id: state.id, finished: state.finished || report is Terminated }
}

/// The table of live runs after a loop in state `state` has handled
/// `report`: the end of the child takes the run out, nothing else touches
/// the table.
pub open spec fn table_after<H>(
    table: Map<Seq<char>, H>,
    state: ForwarderModel,
    report: ChildEventModel,
) -> Map<Seq<char>, H> {
    if !state.finished && report is Terminated {
        table.remove(state.id)
    } else {
        table
    }
}

/// The bytes of output that a report carries, none where it carries no
/// output.
pub open spec fn output_bytes(report: ChildEventModel) -> Seq<u8> {
    match report {
        ChildEventModel::Stdout(bytes) => bytes,
        ChildEventModel::Stderr(bytes) => bytes,
        _ => Seq::empty(),
    }
}

/// The text of an optional notification.
pub open spec fn told_model(event: Option<RunnerEvent>) -> Option<EventModel> {
    match event {
        Some(e) => Some(e@),
        None => None,
    }
}

impl Forwarder {
    /// The loop of run `id`, before its first report.
    pub fn new(id: String) -> (forwarder: Self)
        ensures
            forwarder@ == (ForwarderModel { id: id@, finished: false }),
    {
        Forwarder { id, finished: false }
    }

    /// The run whose reports this loop forwards.
    pub fn id(&self) -> (id: &String)
        ensures
            id@ == self@.id,
    {
        &self.id
    }

    /// Whether the run's end has been forwarded, after which the loop stops.
    pub fn is_finished(&self) -> (finished: bool)
        ensures
            finished == self@.finished,
    {
        self.finished
    }

    /// Handles one report of the child and returns the notification to
    /// deliver, if any. The end of the child removes the run from `manager`
    /// before its exit is told, and nothing is told after that.
    pub fn on_event<H>(&mut self, manager: &mut RunnerManager<H>, report: ChildEvent) -> (event:
        Option<RunnerEvent>)
        ensures
            told_model(event) == told(old(self)@, report@),
            final(self)@ == advanced(old(self)@, report@),
            final(manager)@ == table_after(old(manager)@, old(self)@, report@),
            event matches Some(RunnerEvent::Output(output)) ==> lenient(
                output_bytes(report@),
                output.data@,
            ),
    {
        if self.finished {
            return None;
        }
        match report {
            ChildEvent::Stdout(bytes) => {
                let data = decode_lossy(bytes.as_slice());
                Some(
                    RunnerEvent::Output(
                        RunnerOutput { id: self.id.clone(), stream: OutputStream::Stdout, data },
                    ),
                )
            },
            ChildEvent::Stderr(bytes) => {
                let data = decode_lossy(bytes.as_slice());
                Some(
                    RunnerEvent::Output(
                        RunnerOutput { id: self.id.clone(), stream: OutputStream::Stderr, data },
                    ),
                )
            },
            ChildEvent::Terminated(code) => {
                let _ = manager.remove(&self.id);
                self.finished = true;
                Some(RunnerEvent::Exit(RunnerExit { id: self.id.clone(), code }))
            },
            ChildEvent::Other => None,
        }
    }
}

} // verus!
