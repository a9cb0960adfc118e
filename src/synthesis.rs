use vstd::prelude::*;
use crate::payload::{spec_payload, ssml_payload};
use crate::region::{resolve_region, spec_resolved_region};
use crate::request::{SpeechRequest, Voice};

verus! {

/// A failure after the arguments were resolved; each one ends the run.
#[derive(Debug, PartialEq, Eq)]
pub enum SynthesisError {
    /// The service rejected the call, or the call did not reach it.
    Remote(String),
    /// The audio stream could not be read to its end.
    StreamCollection(String),
    /// The output file could not be created or written.
    FileIo(String),
}

/// Where a synthesis run stands.
#[derive(Clone, Copy, Debug, PartialEq, Eq, Structural)]
pub enum Stage {
    /// Waiting for the service to answer the call.
    Submitting,
    /// Waiting for the whole audio stream.
    Collecting,
    /// Waiting for the audio to be written to the output file.
    Writing,
    /// The audio file is written.
    Done,
    /// A step failed; nothing more happens.
    Failed,
}

/// What the outside work reported.
#[derive(Debug)]
pub enum Event {
    /// The service accepted the call and is sending audio.
    Accepted,
    /// The call failed, with the service's or the transport's message.
    Rejected(String),
    /// The audio stream was read to its end.
    Collected(Vec<u8>),
    /// Reading the audio stream failed.
    CollectFailed(String),
    /// The output file was created and the audio written to it.
    Written,
    /// Creating or writing the output file failed.
    WriteFailed(String),
}

/// The outside work to do next.
#[derive(Debug)]
pub enum Action {
    /// Call the service in `region` with the markup `payload` and `voice`,
    /// asking for compressed audio.
    Submit { region: String, payload: String, voice: Voice },
    /// Read the whole audio stream into memory.
    Collect,
    /// Create or truncate the file at `path` and write `bytes` to it.
    Write { path: String, bytes: Vec<u8> },
    /// Stop, with this outcome.
    Finish(Result<(), SynthesisError>),
}

/// Whether a run at `stage` is waiting for `event`.
pub open spec fn awaits(stage: Stage, event: Event) -> bool {
    match stage {
        Stage::Submitting => event is Accepted || event is Rejected,
        Stage::Collecting => event is Collected || event is CollectFailed,
        Stage::Writing => event is Written || event is WriteFailed,
        Stage::Done | Stage::Failed => false,
    }
}

/// The stage that `event` leads to.
pub open spec fn next_stage(event: Event) -> Stage {
    match event {
        Event::Accepted => Stage::Collecting,
        Event::Collected(_) => Stage::Writing,
        Event::Written => Stage::Done,
        Event::Rejected(_) | Event::CollectFailed(_) | Event::WriteFailed(_) => Stage::Failed,
    }
}

/// Whether `action` is the answer to `event` in a run that writes to `path`.
pub open spec fn answers(path: Seq<char>, event: Event, action: Action) -> bool {
    match event {
        Event::Accepted => action is Collect,
        Event::Rejected(m) => action == Action::Finish(Err(SynthesisError::Remote(m))),
        Event::Collected(audio) => action matches Action::Write { path: p, bytes } && p@ == path
            && bytes@ == audio@,
        Event::CollectFailed(m) => action == Action::Finish(
            Err(SynthesisError::StreamCollection(m)),
        ),
        Event::Written => action == Action::Finish(Ok(())),
        Event::WriteFailed(m) => action == Action::Finish(Err(SynthesisError::FileIo(m))),
    }
}

/// One synthesis run, from the call to the service to the written file.
pub struct Synthesis {
    stage: Stage,
    output_path: String,
}

impl View for Synthesis {
    type V = (Stage, Seq<char>);

    closed spec fn view(&self) -> (Stage, Seq<char>) {
        (self.stage, self.output_path@)
    }
}

impl Synthesis {
    /// Starts a run for `request`: resolves the region from the request's
    /// override and `environment_region`, builds the markup payload, and
    /// asks for the call to the service.
    pub fn start(request: SpeechRequest, environment_region: &Option<String>) -> (r: (
        Synthesis,
        Action,
    ))
        ensures
            r.0@ == (Stage::Submitting, request.output_path@),
            r.1 matches Action::Submit { region, payload, voice } && region@
                == spec_resolved_region(request.region_override, *environment_region) && payload@
                == spec_payload(request.rate, request.text@) && voice@ == request.voice@,
    {
        let region = resolve_region(&request.region_override, environment_region);
        let payload = ssml_payload(request.rate, request.text.as_str());
        let run = Synthesis { stage: Stage::Submitting, output_path: request.output_path };
        (run, Action::Submit { region, payload, voice: request.voice })
    }

    /// Where the run stands.
    pub fn stage(&self) -> (r: Stage)
        ensures
            r == self@.0,
    {
        self.stage
    }

    /// Whether the run is waiting for `event`.
    pub fn awaits(&self, event: &Event) -> (r: bool)
        ensures
            r == awaits(self@.0, *event),
    {
        match self.stage {
            Stage::Submitting => matches!(event, Event::Accepted | Event::Rejected(_)),
            Stage::Collecting => matches!(event, Event::Collected(_) | Event::CollectFailed(_)),
            Stage::Writing => matches!(event, Event::Written | Event::WriteFailed(_)),
            Stage::Done | Stage::Failed => false,
        }
    }

    /// Takes the outcome of the last action and says what to do next: after
    /// the call, read the stream; after the stream, write exactly its bytes
    /// to the output path; after the write, finish. Any failure finishes the
    /// run with that failure.
    pub fn step(&mut self, event: Event) -> (r: Action)
        requires
            awaits(old(self)@.0, event),
        ensures
            final(self)@ == (next_stage(event), old(self)@.1),
            answers(old(self)@.1, event, r),
    {
        match event {
            Event::Accepted => {
                self.stage = Stage::Collecting;
                Action::Collect
            },
            Event::Rejected(m) => {
                self.stage = Stage::Failed;
                Action::Finish(Err(SynthesisError::Remote(m)))
            },
            Event::Collected(audio) => {
                self.stage = Stage::Writing;
                Action::Write { path: self.output_path.clone(), bytes: audio }
            },
            Event::CollectFailed(m) => {
                self.stage = Stage::Failed;
                Action::Finish(Err(SynthesisError::StreamCollection(m)))
            },
            Event::Written => {
                self.stage = Stage::Done;
                Action::Finish(Ok(()))
            },
            Event::WriteFailed(m) => {
                self.stage = Stage::Failed;
                Action::Finish(Err(SynthesisError::FileIo(m)))
            },
        }
    }
}

/// The file is written with exactly the bytes that the service sent: the
/// answer to the collected stream is a write of those bytes, unchanged, to
/// the run's output path.
pub proof fn lemma_write_is_verbatim(path: Seq<char>, audio: Vec<u8>, action: Action)
    requires
        answers(path, Event::Collected(audio), action),
    ensures
        action matches Action::Write { path: p, bytes } && p@ == path && bytes@ == audio@,
{
}

/// When the service call fails, no write is ever asked for: the answer is to
/// finish with the remote error, and the failed run waits for nothing more.
pub proof fn lemma_rejection_writes_nothing(path: Seq<char>, message: String, action: Action)
    requires
        answers(path, Event::Rejected(message), action),
    ensures
        action == Action::Finish(Err(SynthesisError::Remote(message))),
        next_stage(Event::Rejected(message)) == Stage::Failed,
        forall|later: Event| !awaits(Stage::Failed, later),
{
}

} // verus!
