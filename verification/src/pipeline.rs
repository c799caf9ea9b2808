//! The decisions of a run, as a state machine. The caller does the outside
//! work (it walks the tree, reads files and writes to the sink) and reports
//! each outcome as an `Event`; the machine answers with the next `Action`.

use crate::entry::{Entry, SpecEntry};
use crate::framing::{opening, opening_text, record, record_text, sentinel, sentinel_line};
use crate::text::texts;
use vstd::prelude::*;

verus! {

/// Why a run was given up. Every failure ends the run; none is retried.
#[derive(Clone, Copy, Debug, PartialEq, Eq, Structural)]
pub enum Failure {
    /// The walk could not read an entry.
    Traversal,
    /// A file that was to be written out could not be read as text.
    FileRead,
    /// The sink did not take what was written to it.
    OutputWrite,
}

/// What the caller reports back after carrying out an action.
#[derive(Clone, Debug, PartialEq, Eq)]
pub enum Event {
    /// The walk produced its next entry.
    Found(Entry),
    /// The walk failed on its next entry.
    WalkFailed,
    /// The walk has no more entries.
    Exhausted,
    /// The file that was asked for holds this text.
    Contents(String),
    /// The file that was asked for could not be read as text.
    ReadFailed,
    /// The text handed out was written to the sink.
    Written,
    /// The text handed out could not be written to the sink.
    WriteFailed,
}

/// What an `Event` holds, as sequences of characters.
pub enum SpecEvent {
    Found(SpecEntry),
    WalkFailed,
    Exhausted,
    Contents(Seq<char>),
    ReadFailed,
    Written,
    WriteFailed,
}

impl View for Event {
    type V = SpecEvent;

    open spec fn view(&self) -> SpecEvent {
        match self {
            Event::Found(entry) => SpecEvent::Found(entry@),
            Event::WalkFailed => SpecEvent::WalkFailed,
            Event::Exhausted => SpecEvent::Exhausted,
            Event::Contents(text) => SpecEvent::Contents(text@),
            Event::ReadFailed => SpecEvent::ReadFailed,
            Event::Written => SpecEvent::Written,
            Event::WriteFailed => SpecEvent::WriteFailed,
        }
    }
}

/// What the caller is to do next.
#[derive(Clone, Debug, PartialEq, Eq)]
pub enum Action {
    /// Take the next entry from the walk and report it.
    NextEntry,
    /// Read the entry that was just reported as text, and report the text.
    ReadFile,
    /// Append this text to the sink, and report whether that worked.
    Write(String),
    /// The run is complete.
    Finish,
    /// The run has failed; stop.
    Abort(Failure),
}

/// What an `Action` holds, as sequences of characters.
pub enum SpecAction {
    NextEntry,
    ReadFile,
    Write(Seq<char>),
    Finish,
    Abort(Failure),
}

impl View for Action {
    type V = SpecAction;

    open spec fn view(&self) -> SpecAction {
        match self {
            Action::NextEntry => SpecAction::NextEntry,
            Action::ReadFile => SpecAction::ReadFile,
            Action::Write(text) => SpecAction::Write(text@),
            Action::Finish => SpecAction::Finish,
            Action::Abort(failure) => SpecAction::Abort(*failure),
        }
    }
}

/// Where a run stands: which report the machine is waiting for.
#[derive(Clone, Debug, PartialEq, Eq)]
pub enum Phase {
    /// The opening block was handed out; `walk` says whether a walk follows.
    Opening { walk: bool },
    /// Waiting for the next entry of the walk.
    Walking,
    /// Waiting for the text of the file that will be written under `path`.
    Reading { path: String },
    /// A record was handed out.
    Writing,
    /// The closing line was handed out.
    Closing,
    /// The run is complete.
    Done,
    /// The run has failed.
    Failed(Failure),
}

/// What a `Phase` holds, as sequences of characters.
pub enum SpecPhase {
    Opening { walk: bool },
    Walking,
    Reading { path: Seq<char> },
    Writing,
    Closing,
    Done,
    Failed(Failure),
}

impl View for Phase {
    type V = SpecPhase;

    open spec fn view(&self) -> SpecPhase {
        match self {
            Phase::Opening { walk } => SpecPhase::Opening { walk: *walk },
            Phase::Walking => SpecPhase::Walking,
            Phase::Reading { path } => SpecPhase::Reading { path: path@ },
            Phase::Writing => SpecPhase::Writing,
            Phase::Closing => SpecPhase::Closing,
            Phase::Done => SpecPhase::Done,
            Phase::Failed(failure) => SpecPhase::Failed(*failure),
        }
    }
}

/// The state of a run: the ignore list it was started with, which never
/// changes, and the phase it is in.
#[derive(Clone, Debug)]
pub struct Serializer {
    ignore_list: Vec<String>,
    phase: Phase,
}

/// What a `Serializer` holds, as sequences of characters.
pub struct SpecSerializer {
    pub ignore_list: Seq<Seq<char>>,
    pub phase: SpecPhase,
}

/// One move of the machine: the state it reaches and the action it asks for.
pub struct SpecStep {
    pub state: SpecSerializer,
    pub action: SpecAction,
}

impl SpecSerializer {
    /// The same run in another phase.
    pub open spec fn at(self, phase: SpecPhase) -> SpecSerializer {
        SpecSerializer { ignore_list: self.ignore_list, phase }
    }

    /// The move that gives the run up.
    pub open spec fn fail(self, failure: Failure) -> SpecStep {
        SpecStep { state: self.at(SpecPhase::Failed(failure)), action: SpecAction::Abort(failure) }
    }

    /// The move that goes on to the next entry of the walk.
    pub open spec fn advance(self) -> SpecStep {
        SpecStep { state: self.at(SpecPhase::Walking), action: SpecAction::NextEntry }
    }

    /// The move that completes the run.
    pub open spec fn complete(self) -> SpecStep {
        SpecStep { state: self.at(SpecPhase::Done), action: SpecAction::Finish }
    }

    /// The move that `event` causes, or `None` where the event does not
    /// answer what the machine is waiting for.
    ///
    /// - After the opening block: a walk follows only where no preamble was
    ///   supplied; otherwise the run is complete.
    /// - While walking: a regular file that is not ignored is read, every
    ///   other entry is passed over; the end of the walk hands out the
    ///   closing line.
    /// - The text of a file is handed out as one record.
    /// - Any failure gives the run up.
    pub open spec fn transition(self, event: SpecEvent) -> Option<SpecStep> {
        match (self.phase, event) {
            (SpecPhase::Opening { walk }, SpecEvent::Written) => Some(
                if walk {
                    self.advance()
                } else {
                    self.complete()
                },
            ),
            (SpecPhase::Walking, SpecEvent::Found(entry)) => Some(
                if entry.is_candidate(self.ignore_list) {
                    SpecStep {
                        state: self.at(SpecPhase::Reading { path: entry.relative_path().display }),
                        action: SpecAction::ReadFile,
                    }
                } else {
                    self.advance()
                },
            ),
            (SpecPhase::Walking, SpecEvent::WalkFailed) => Some(self.fail(Failure::Traversal)),
            (SpecPhase::Walking, SpecEvent::Exhausted) => Some(
                SpecStep {
                    state: self.at(SpecPhase::Closing),
                    action: SpecAction::Write(sentinel_line()),
                },
            ),
            (SpecPhase::Reading { path }, SpecEvent::Contents(text)) => Some(
                SpecStep {
                    state: self.at(SpecPhase::Writing),
                    action: SpecAction::Write(record_text(path, text)),
                },
            ),
            (SpecPhase::Reading { path }, SpecEvent::ReadFailed) => Some(
                self.fail(Failure::FileRead),
            ),
            (SpecPhase::Writing, SpecEvent::Written) => Some(self.advance()),
            (SpecPhase::Closing, SpecEvent::Written) => Some(self.complete()),
            (SpecPhase::Opening { walk }, SpecEvent::WriteFailed) => Some(
                self.fail(Failure::OutputWrite),
            ),
            (SpecPhase::Writing, SpecEvent::WriteFailed) => Some(self.fail(Failure::OutputWrite)),
            (SpecPhase::Closing, SpecEvent::WriteFailed) => Some(self.fail(Failure::OutputWrite)),
            _ => None,
        }
    }
}

/// The state in which a run starts: the opening block has been handed out.
pub open spec fn initial_state(ignore_list: Seq<Seq<char>>, preamble: Option<Seq<char>>)
    -> SpecSerializer {
    SpecSerializer { ignore_list, phase: SpecPhase::Opening { walk: preamble is None } }
}

impl View for Serializer {
    type V = SpecSerializer;

    closed spec fn view(&self) -> SpecSerializer {
        SpecSerializer { ignore_list: texts(self.ignore_list@), phase: self.phase@ }
    }
}

impl Serializer {
    /// Starts a run under `ignore_list`. The action returned hands out the
    /// opening block: `preamble` as a line, or the default preamble.
    pub fn start(ignore_list: Vec<String>, preamble: Option<&str>) -> (started: (
        Serializer,
        Action,
    ))
        ensures
            started.0@ == initial_state(
                texts(ignore_list@),
                match preamble {
                    Some(text) => Some(text@),
                    None => None,
                },
            ),
            started.1@ == SpecAction::Write(
                opening_text(
                    match preamble {
                        Some(text) => Some(text@),
                        None => None,
                    },
                ),
            ),
    {
        let walk = preamble.is_none();
        let text = opening(preamble);
        (Serializer { ignore_list, phase: Phase::Opening { walk } }, Action::Write(text))
    }

    /// Takes the report of the last action and answers with the next one.
    /// A report that does not answer what the machine is waiting for is
    /// refused: the result is `None` and the state stays as it was.
    pub fn step(&mut self, event: Event) -> (action: Option<Action>)
        ensures
            old(self)@.transition(event@) matches Some(step) ==> final(self)@ == step.state && (
            action matches Some(a) && a@ == step.action),
            old(self)@.transition(event@) is None ==> final(self)@ == old(self)@ && action is None,
    {
        let mut phase = Phase::Done;
        std::mem::swap(&mut self.phase, &mut phase);
        match (phase, event) {
            (Phase::Opening { walk }, Event::Written) => {
                if walk {
                    self.phase = Phase::Walking;
                    Some(Action::NextEntry)
                } else {
                    self.phase = Phase::Done;
                    Some(Action::Finish)
                }
            },
            (Phase::Walking, Event::Found(entry)) => {
                if entry.is_candidate(self.ignore_list.as_slice()) {
                    let path = entry.relative_path().display().to_owned();
                    self.phase = Phase::Reading { path };
                    Some(Action::ReadFile)
                } else {
                    self.phase = Phase::Walking;
                    Some(Action::NextEntry)
                }
            },
            (Phase::Walking, Event::WalkFailed) => {
                self.phase = Phase::Failed(Failure::Traversal);
                Some(Action::Abort(Failure::Traversal))
            },
            (Phase::Walking, Event::Exhausted) => {
                self.phase = Phase::Closing;
                Some(Action::Write(sentinel()))
            },
            (Phase::Reading { path }, Event::Contents(text)) => {
                self.phase = Phase::Writing;
                Some(Action::Write(record(path.as_str(), text.as_str())))
            },
            (Phase::Reading { path }, Event::ReadFailed) => {
                self.phase = Phase::Failed(Failure::FileRead);
                Some(Action::Abort(Failure::FileRead))
            },
            (Phase::Writing, Event::Written) => {
                self.phase = Phase::Walking;
                Some(Action::NextEntry)
            },
            (Phase::Closing, Event::Written) => {
                self.phase = Phase::Done;
                Some(Action::Finish)
            },
            (Phase::Opening { walk }, Event::WriteFailed) => {
                self.phase = Phase::Failed(Failure::OutputWrite);
                Some(Action::Abort(Failure::OutputWrite))
            },
            (Phase::Writing, Event::WriteFailed) => {
                self.phase = Phase::Failed(Failure::OutputWrite);
                Some(Action::Abort(Failure::OutputWrite))
            },
            (Phase::Closing, Event::WriteFailed) => {
                self.phase = Phase::Failed(Failure::OutputWrite);
                Some(Action::Abort(Failure::OutputWrite))
            },
            (phase, _) => {
                self.phase = phase;
                None
            },
        }
    }

    /// The phase the run is in.
    pub fn phase(&self) -> (phase: &Phase)
        ensures
            phase@ == self@.phase,
    {
        &self.phase
    }

    /// The ignore list the run was started with.
    pub fn ignore_list(&self) -> (list: &[String])
        ensures
            texts(list@) == self@.ignore_list,
    {
        self.ignore_list.as_slice()
    }
}

} // verus!
