use crate::container::{
    chunk_logged, chunk_status, stop_asked, Container, ShStatus, TtyChunk, DOWNLOAD_NOTICE,
};
use crate::logs::{LogStream, NEWLINE};
use crate::pipeline::{ExecutionRecord, Pipeline, Step};
use crate::registry::{CancellationHandle, ExecutionRegistry};
use crate::types::{ExecutionOutcome, StepOutcome};
use vstd::prelude::*;
use vstd::utf8::encode_utf8;

verus! {

/// Where the runner stands within the step at its cursor.
#[derive(Debug, Clone, Copy, PartialEq, Eq, Structural)]
pub enum Phase {
    /// The step's command runs on the host.
    Shell,
    /// The engine is asked which images of the step's name it holds.
    Listing,
    /// The step's image is being pulled.
    Pulling,
    /// The engine is asked to create the step's container.
    Creating,
    /// The engine is asked to start the container.
    Starting,
    /// The step's command runs inside the container.
    Executing,
    /// The container is being stopped; the command ended as noted.
    Stopping(StepOutcome),
    /// The container is being deleted; the command ended as noted.
    Deleting(StepOutcome),
    /// The run is over.
    Finished(ExecutionOutcome),
}

/// What the driver of a run has to do next. With each but `Finish` it comes
/// back with an event.
#[derive(Debug, Clone, Copy, PartialEq, Eq, Structural)]
pub enum Action {
    /// Run the step's command on the host.
    RunShell,
    /// Ask the engine for its images of the step's name.
    ListImages,
    /// Begin to pull the step's image, and read the first progress message.
    PullImage,
    /// Wait, then read the next progress message of the pull.
    NextProgress,
    /// Create a container of the step's image, with a terminal.
    CreateContainer,
    /// Start the container.
    StartContainer,
    /// Run the step's command in the container, and read its first output.
    Exec,
    /// Wait, then read the next piece of output.
    NextChunk,
    /// Stop the container.
    StopContainer,
    /// Delete the container.
    DeleteContainer,
    /// Nothing is left to do.
    Finish,
}

/// What the driver of a run reports back.
#[derive(Debug, Clone, PartialEq, Eq)]
pub enum Event {
    /// The command on the host ended, having written `output`.
    ShellDone { output: Vec<u8>, success: bool },
    /// The engine holds this many images of the step's name.
    ImagesListed(usize),
    /// The pull reported progress.
    PullProgress(String),
    /// The pull ended.
    PullDone,
    /// The engine created the container, under this id.
    Created(String),
    /// The engine started the container.
    Started,
    /// The command in the container wrote something.
    Chunk(TtyChunk),
    /// The command in the container wrote all it had.
    ExecDone,
    /// The engine stopped the container.
    Stopped,
    /// The engine deleted the container.
    Deleted,
    /// The engine refused what was asked, with this complaint.
    EngineError(String),
}

/// The place of a run: the step it is at, and where within it.
pub struct RunState {
    pub cursor: nat,
    pub phase: Phase,
}

/// A pipeline in the course of being run, step by step.
pub struct Runner {
    pipeline: Pipeline,
    cursor: usize,
    phase: Phase,
}

impl Runner {
    #[verifier::type_invariant]
    spec fn in_range(self) -> bool {
        Self::fits(self.pipeline.kinds(), RunState { cursor: self.cursor as nat, phase: self.phase })
    }

    /// Whether `state` is a place in a pipeline of these steps: a run that
    /// is not over stands at one of the steps.
    pub open spec fn fits(kinds: Seq<bool>, state: RunState) -> bool {
        &&& state.cursor <= kinds.len()
        &&& state.phase !is Finished ==> state.cursor < kinds.len()
    }

    /// Begins the step at `cursor`: on the host, or with a look at the
    /// engine's images. Beyond the last step the run has succeeded.
    pub open spec fn enter(kinds: Seq<bool>, cursor: nat) -> (RunState, Action) {
        if cursor >= kinds.len() {
            (RunState { cursor, phase: Phase::Finished(ExecutionOutcome::Succeeded) }, Action::Finish)
        } else if kinds[cursor as int] {
            (RunState { cursor, phase: Phase::Listing }, Action::ListImages)
        } else {
            (RunState { cursor, phase: Phase::Shell }, Action::RunShell)
        }
    }

    /// Ends the step at `cursor` with `outcome`: after a success the next
    /// step begins; anything else ends the run, at that step.
    pub open spec fn complete(kinds: Seq<bool>, cursor: nat, outcome: StepOutcome) -> (RunState, Action) {
        if outcome == StepOutcome::Success {
            Self::enter(kinds, cursor + 1)
        } else {
            (RunState { cursor, phase: Phase::Finished(ExecutionOutcome::of_step(outcome)) }, Action::Finish)
        }
    }

    /// How the command in the container ended, if `event` ends it: the end
    /// of its output is a success; else a stop that was asked cancels it;
    /// else a chunk lets it go on, and anything else fails it.
    pub open spec fn exec_result(event: Event, stop: bool) -> Option<StepOutcome> {
        if event is ExecDone {
            Some(StepOutcome::Success)
        } else {
            match chunk_status(stop, !(event is Chunk)) {
                ShStatus::Proceed => None,
                ShStatus::Finished(outcome) => Some(outcome),
            }
        }
    }

    /// How the step ends, if `event` ends it in `phase`. An event that the
    /// phase does not wait for fails the step; a container that is being
    /// disposed of keeps the outcome of its command whatever is reported.
    pub open spec fn step_result(phase: Phase, event: Event) -> Option<StepOutcome> {
        match phase {
            Phase::Shell => match event {
                Event::ShellDone { output, success } => Some(
                    if success {
                        StepOutcome::Success
                    } else {
                        StepOutcome::Failure
                    },
                ),
                _ => Some(StepOutcome::Failure),
            },
            Phase::Listing => if event is ImagesListed {
                None
            } else {
                Some(StepOutcome::Failure)
            },
            Phase::Pulling => if event is PullProgress || event is PullDone {
                None
            } else {
                Some(StepOutcome::Failure)
            },
            Phase::Creating => if event is Created {
                None
            } else {
                Some(StepOutcome::Failure)
            },
            Phase::Starting => if event is Started {
                None
            } else {
                Some(StepOutcome::Failure)
            },
            Phase::Executing => None,
            Phase::Stopping(outcome) => if event is Stopped {
                None
            } else {
                Some(outcome)
            },
            Phase::Deleting(outcome) => Some(outcome),
            Phase::Finished(_) => None,
        }
    }

    /// Where `event` leads within the step, where it does not end it.
    pub open spec fn within_step(phase: Phase, event: Event, stop: bool) -> (Phase, Action) {
        match phase {
            Phase::Listing => match event {
                Event::ImagesListed(known) => if known == 0 {
                    (Phase::Pulling, Action::PullImage)
                } else {
                    (Phase::Creating, Action::CreateContainer)
                },
                _ => (phase, Action::Finish),
            },
            Phase::Pulling => if event is PullDone {
                (Phase::Creating, Action::CreateContainer)
            } else {
                (Phase::Pulling, Action::NextProgress)
            },
            Phase::Creating => (Phase::Starting, Action::StartContainer),
            Phase::Starting => (Phase::Executing, Action::Exec),
            Phase::Executing => match Self::exec_result(event, stop) {
                None => (Phase::Executing, Action::NextChunk),
                Some(outcome) => (Phase::Stopping(outcome), Action::StopContainer),
            },
            Phase::Stopping(outcome) => (Phase::Deleting(outcome), Action::DeleteContainer),
            _ => (phase, Action::Finish),
        }
    }

    /// Where the run stands after `event`, and what is to be done next. A
    /// run that is over stays as it is.
    pub open spec fn next(kinds: Seq<bool>, state: RunState, event: Event, stop: bool) -> (RunState, Action) {
        if state.phase is Finished {
            (state, Action::Finish)
        } else {
            match Self::step_result(state.phase, event) {
                Some(outcome) => Self::complete(kinds, state.cursor, outcome),
                None => {
                    let (phase, action) = Self::within_step(state.phase, event, stop);
                    (RunState { cursor: state.cursor, phase }, action)
                },
            }
        }
    }

    /// What `event` adds to the log: the output of a command; the notice
    /// of a pull of `image`, and its progress, line by line; the complaints
    /// of the engine, each as a line. A run that is over logs nothing.
    pub open spec fn logged(image: Seq<char>, phase: Phase, event: Event, stop: bool) -> Seq<u8> {
        if phase is Finished {
            Seq::empty()
        } else {
            match event {
                Event::ShellDone { output, success } => if phase is Shell {
                    output@
                } else {
                    Seq::empty()
                },
                Event::ImagesListed(known) => if phase is Listing && known == 0 {
                    encode_utf8(DOWNLOAD_NOTICE@ + image) + seq![NEWLINE]
                } else {
                    Seq::empty()
                },
                Event::PullProgress(info) => if phase is Pulling {
                    encode_utf8(info@) + seq![NEWLINE]
                } else {
                    Seq::empty()
                },
                Event::Chunk(piece) => if phase is Executing {
                    chunk_logged(stop, Ok(piece))
                } else {
                    Seq::empty()
                },
                Event::EngineError(complaint) => if phase is Executing {
                    chunk_logged(stop, Err(complaint))
                } else {
                    encode_utf8(complaint@) + seq![NEWLINE]
                },
                _ => Seq::empty(),
            }
        }
    }

    /// How a run at `phase` counts when it is closed: as it ended, or, where
    /// it was cut short, as failed.
    pub open spec fn outcome_of(phase: Phase) -> ExecutionOutcome {
        match phase {
            Phase::Finished(outcome) => outcome,
            _ => ExecutionOutcome::Failed,
        }
    }

    /// Where the run stands after each of `inputs` in turn; an input is an
    /// event and whether a stop was asked by then.
    pub open spec fn run(kinds: Seq<bool>, state: RunState, inputs: Seq<(Event, bool)>) -> RunState
        decreases inputs.len(),
    {
        if inputs.len() == 0 {
            state
        } else {
            Self::run(kinds, Self::next(kinds, state, inputs[0].0, inputs[0].1).0, inputs.drop_first())
        }
    }

    /// The pipeline that is run.
    pub closed spec fn pipeline(self) -> Pipeline {
        self.pipeline
    }

    /// Where the run stands.
    pub closed spec fn state(self) -> RunState {
        RunState { cursor: self.cursor as nat, phase: self.phase }
    }

    /// The image of the step at the cursor; empty where it names none.
    pub open spec fn image(self) -> Seq<char> {
        let steps = self.pipeline().steps@;
        if self.state().cursor < steps.len() {
            match steps[self.state().cursor as int].image {
                Some(image) => image@,
                None => Seq::empty(),
            }
        } else {
            Seq::empty()
        }
    }

    /// Takes up `pipeline` and begins its first step.
    pub fn new(pipeline: Pipeline) -> (begun: (Runner, Action))
        ensures
            begun.0.pipeline() == pipeline,
            (begun.0.state(), begun.1) == Self::enter(pipeline.kinds(), 0),
    {
        if pipeline.steps.len() == 0 {
            (
                Runner { pipeline, cursor: 0, phase: Phase::Finished(ExecutionOutcome::Succeeded) },
                Action::Finish,
            )
        } else if pipeline.steps[0].image.is_some() {
            (Runner { pipeline, cursor: 0, phase: Phase::Listing }, Action::ListImages)
        } else {
            (Runner { pipeline, cursor: 0, phase: Phase::Shell }, Action::RunShell)
        }
    }

    /// Where the run stands within its step.
    pub fn phase(&self) -> (phase: Phase)
        ensures
            phase == self.state().phase,
    {
        self.phase
    }

    /// The number of the step that the run is at, or was at when it ended;
    /// after a run that succeeded, the number of steps.
    pub fn position(&self) -> (cursor: usize)
        ensures
            cursor == self.state().cursor,
            Self::fits(self.pipeline().kinds(), self.state()),
    {
        proof {
            use_type_invariant(self);
        }
        self.cursor
    }

    /// The step that the run is at; `None` once the run is over.
    pub fn current_step(&self) -> (step: Option<&Step>)
        ensures
            match step {
                Some(at) => {
                    &&& self.state().phase !is Finished
                    &&& self.state().cursor < self.pipeline().steps@.len()
                    &&& *at == self.pipeline().steps@[self.state().cursor as int]
                },
                None => self.state().phase is Finished,
            },
    {
        proof {
            use_type_invariant(self);
        }
        match self.phase {
            Phase::Finished(_) => None,
            _ => Some(&self.pipeline.steps[self.cursor]),
        }
    }

    /// Whether the run is over.
    pub fn is_finished(&self) -> (over: bool)
        ensures
            over == self.state().phase is Finished,
    {
        match self.phase {
            Phase::Finished(_) => true,
            _ => false,
        }
    }

    /// How the run counts if it is closed now.
    pub fn outcome(&self) -> (outcome: ExecutionOutcome)
        ensures
            outcome == Self::outcome_of(self.state().phase),
    {
        match self.phase {
            Phase::Finished(outcome) => outcome,
            _ => ExecutionOutcome::Failed,
        }
    }

    /// Ends the step at the cursor with `outcome`.
    fn finish_step(&mut self, outcome: StepOutcome) -> (action: Action)
        requires
            old(self).phase !is Finished,
        ensures
            final(self).pipeline == old(self).pipeline,
            (final(self).state(), action) == Self::complete(
                old(self).pipeline.kinds(),
                old(self).state().cursor,
                outcome,
            ),
    {
        proof {
            use_type_invariant(&*self);
            assert(self.pipeline.kinds().len() == self.pipeline.steps@.len());
        }
        let count: usize = self.pipeline.steps.len();
        match outcome {
            StepOutcome::Success => {
                let following: usize = self.cursor + 1;
                if following >= count {
                    self.phase = Phase::Finished(ExecutionOutcome::Succeeded);
                    self.cursor = following;
                    Action::Finish
                } else if self.pipeline.steps[following].image.is_some() {
                    self.cursor = following;
                    self.phase = Phase::Listing;
                    Action::ListImages
                } else {
                    self.cursor = following;
                    self.phase = Phase::Shell;
                    Action::RunShell
                }
            },
            StepOutcome::Failure => {
                self.phase = Phase::Finished(ExecutionOutcome::Failed);
                Action::Finish
            },
            StepOutcome::Cancelled => {
                self.phase = Phase::Finished(ExecutionOutcome::Cancelled);
                Action::Finish
            },
        }
    }

    /// Writes a complaint of the engine to the log, as a line.
    fn complain(logger: &mut LogStream, complaint: &String)
        ensures
            final(logger)@ == old(logger)@ + (encode_utf8(complaint@) + seq![NEWLINE]),
    {
        logger.append_line(complaint.as_str());
        assert(logger@ =~= old(logger)@ + (encode_utf8(complaint@) + seq![NEWLINE]));
    }

    /// Takes in what the driver reports, and says what it has to do next.
    /// `cm` is the stop signal of the execution as it stands now; what the
    /// event brings to be logged goes to `logger`.
    pub fn on_event(&mut self, event: Event, cm: &Option<CancellationHandle>, logger: &mut LogStream) -> (action: Action)
        ensures
            final(self).pipeline() == old(self).pipeline(),
            (final(self).state(), action) == Self::next(
                old(self).pipeline().kinds(),
                old(self).state(),
                event,
                stop_asked(*cm),
            ),
            final(logger)@ == old(logger)@ + Self::logged(
                old(self).image(),
                old(self).state().phase,
                event,
                stop_asked(*cm),
            ),
    {
        proof {
            use_type_invariant(&*self);
            assert(self.pipeline.kinds().len() == self.pipeline.steps@.len());
            assert(logger@ + Seq::<u8>::empty() =~= logger@);
        }
        let stop = match cm {
            Some(handle) => handle.is_signaled(),
            None => false,
        };
        match self.phase {
            Phase::Finished(_) => Action::Finish,
            Phase::Shell => match event {
                Event::ShellDone { output, success } => {
                    logger.append_bytes(output.as_slice());
                    if success {
                        self.finish_step(StepOutcome::Success)
                    } else {
                        self.finish_step(StepOutcome::Failure)
                    }
                },
                Event::EngineError(complaint) => {
                    Self::complain(logger, &complaint);
                    self.finish_step(StepOutcome::Failure)
                },
                _ => self.finish_step(StepOutcome::Failure),
            },
            Phase::Listing => match event {
                Event::ImagesListed(known) => {
                    let pull = match &self.pipeline.steps[self.cursor].image {
                        Some(image) => Container::pull(image.as_str(), known, logger),
                        None => {
                            proof {
                                reveal_strlit("");
                                assert(DOWNLOAD_NOTICE@ + ""@ =~= DOWNLOAD_NOTICE@ + Seq::<char>::empty());
                            }
                            Container::pull("", known, logger)
                        },
                    };
                    if pull {
                        self.phase = Phase::Pulling;
                        Action::PullImage
                    } else {
                        self.phase = Phase::Creating;
                        Action::CreateContainer
                    }
                },
                Event::EngineError(complaint) => {
                    Self::complain(logger, &complaint);
                    self.finish_step(StepOutcome::Failure)
                },
                _ => self.finish_step(StepOutcome::Failure),
            },
            Phase::Pulling => match event {
                Event::PullProgress(info) => {
                    Container::pulling(info.as_str(), logger);
                    assert(logger@ =~= old(logger)@ + (encode_utf8(info@) + seq![NEWLINE]));
                    Action::NextProgress
                },
                Event::PullDone => {
                    self.phase = Phase::Creating;
                    Action::CreateContainer
                },
                Event::EngineError(complaint) => {
                    Self::complain(logger, &complaint);
                    self.finish_step(StepOutcome::Failure)
                },
                _ => self.finish_step(StepOutcome::Failure),
            },
            Phase::Creating => match event {
                Event::Created(_) => {
                    self.phase = Phase::Starting;
                    Action::StartContainer
                },
                Event::EngineError(complaint) => {
                    Self::complain(logger, &complaint);
                    self.finish_step(StepOutcome::Failure)
                },
                _ => self.finish_step(StepOutcome::Failure),
            },
            Phase::Starting => match event {
                Event::Started => {
                    self.phase = Phase::Executing;
                    Action::Exec
                },
                Event::EngineError(complaint) => {
                    Self::complain(logger, &complaint);
                    self.finish_step(StepOutcome::Failure)
                },
                _ => self.finish_step(StepOutcome::Failure),
            },
            Phase::Executing => {
                let status = match event {
                    Event::ExecDone => ShStatus::Finished(StepOutcome::Success),
                    Event::Chunk(piece) => Container::chunk(cm, Ok(piece), logger),
                    Event::EngineError(complaint) => Container::chunk(cm, Err(complaint), logger),
                    _ => if stop {
                        ShStatus::Finished(StepOutcome::Cancelled)
                    } else {
                        ShStatus::Finished(StepOutcome::Failure)
                    },
                };
                match status {
                    ShStatus::Proceed => Action::NextChunk,
                    ShStatus::Finished(outcome) => {
                        self.phase = Phase::Stopping(outcome);
                        Action::StopContainer
                    },
                }
            },
            Phase::Stopping(outcome) => match event {
                Event::Stopped => {
                    self.phase = Phase::Deleting(outcome);
                    Action::DeleteContainer
                },
                Event::EngineError(complaint) => {
                    Self::complain(logger, &complaint);
                    self.finish_step(outcome)
                },
                _ => self.finish_step(outcome),
            },
            Phase::Deleting(outcome) => match event {
                Event::EngineError(complaint) => {
                    Self::complain(logger, &complaint);
                    self.finish_step(outcome)
                },
                _ => self.finish_step(outcome),
            },
        }
    }

    /// Closes the execution, however the run went: the record ends, with the
    /// outcome of the run, or as failed where the run was cut short, and
    /// the execution leaves the registry.
    pub fn finalize(&self, record: &mut ExecutionRecord, registry: &mut ExecutionRegistry)
        ensures
            !final(record).running(),
            final(record).outcome() == (if old(record).running() {
                Some(Self::outcome_of(self.state().phase))
            } else {
                old(record).outcome()
            }),
            final(record).id_text() == old(record).id_text(),
            final(record).name_text() == old(record).name_text(),
            final(record).user_text() == old(record).user_text(),
            final(record).start_text() == old(record).start_text(),
            final(registry)@ == ExecutionRegistry::unregistered(old(registry)@, old(record).id_text()),
    {
        close(self.outcome(), record, registry);
    }
}

/// Closes an execution that ended with `outcome`: its record ends, unless it
/// has ended before, and the execution leaves the registry.
pub fn close(outcome: ExecutionOutcome, record: &mut ExecutionRecord, registry: &mut ExecutionRegistry)
    ensures
        !final(record).running(),
        final(record).outcome() == (if old(record).running() {
            Some(outcome)
        } else {
            old(record).outcome()
        }),
        final(record).id_text() == old(record).id_text(),
        final(record).name_text() == old(record).name_text(),
        final(record).user_text() == old(record).user_text(),
        final(record).start_text() == old(record).start_text(),
        final(registry)@ == ExecutionRegistry::unregistered(old(registry)@, old(record).id_text()),
{
    let _ = record.finish(outcome);
    let _ = registry.unregister(record.id().as_str());
}

/// A run that is over stays over: whatever is reported to it, it stands
/// where it stood, asks for nothing and logs nothing.
pub proof fn lemma_finished_is_final(kinds: Seq<bool>, state: RunState, event: Event, stop: bool, image: Seq<char>)
    requires
        state.phase is Finished,
    ensures
        Runner::next(kinds, state, event, stop) == (state, Action::Finish),
        Runner::logged(image, state.phase, event, stop) == Seq::<u8>::empty(),
{
}

/// A run that is over stays where it is through any number of reports.
pub proof fn lemma_finished_run_stays(kinds: Seq<bool>, state: RunState, inputs: Seq<(Event, bool)>)
    requires
        state.phase is Finished,
    ensures
        Runner::run(kinds, state, inputs) == state,
    decreases inputs.len(),
{
    if inputs.len() > 0 {
        lemma_finished_run_stays(kinds, state, inputs.drop_first());
    }
}

/// Every place that a run comes to is a place in its pipeline.
pub proof fn lemma_next_fits(kinds: Seq<bool>, state: RunState, event: Event, stop: bool)
    requires
        Runner::fits(kinds, state),
    ensures
        Runner::fits(kinds, Runner::next(kinds, state, event, stop).0),
{
}

/// Steps run in order, and a step begins only after the one before it
/// succeeded: a report leaves the run at its step, or, where it ends that
/// step as a success, moves it to the next one.
pub proof fn lemma_steps_in_order(kinds: Seq<bool>, state: RunState, event: Event, stop: bool)
    requires
        Runner::fits(kinds, state),
    ensures
        ({
            let after = Runner::next(kinds, state, event, stop).0;
            &&& after.cursor == state.cursor || after.cursor == state.cursor + 1
            &&& after.cursor == state.cursor + 1 ==> state.phase !is Finished && Runner::step_result(
                state.phase,
                event,
            ) == Some(StepOutcome::Success)
        }),
{
}

/// A step that does not succeed ends the run at that step, with an outcome
/// that is no success. No later report moves the run on: the steps behind
/// the one that failed are never begun.
pub proof fn lemma_failed_step_ends_run(
    kinds: Seq<bool>,
    state: RunState,
    event: Event,
    stop: bool,
    outcome: StepOutcome,
    later: Seq<(Event, bool)>,
)
    requires
        Runner::fits(kinds, state),
        state.phase !is Finished,
        Runner::step_result(state.phase, event) == Some(outcome),
        outcome != StepOutcome::Success,
    ensures
        ({
            let (after, action) = Runner::next(kinds, state, event, stop);
            &&& after.cursor == state.cursor
            &&& after.phase == Phase::Finished(ExecutionOutcome::of_step(outcome))
            &&& Runner::outcome_of(after.phase).is_failure()
            &&& action == Action::Finish
            &&& Runner::run(kinds, after, later) == after
        }),
{
    let after = Runner::next(kinds, state, event, stop).0;
    lemma_finished_run_stays(kinds, after, later);
}

/// Once a stop was asked, the command in the container is cut off at the
/// next piece of output that comes, or at the next complaint of the engine:
/// the piece is not logged, no further one is read, and the container is
/// disposed of with the command counted as cancelled.
pub proof fn lemma_stop_cuts_output(event: Event, image: Seq<char>)
    requires
        event is Chunk || event is EngineError,
    ensures
        Runner::step_result(Phase::Executing, event) is None,
        Runner::within_step(Phase::Executing, event, true) == (
            Phase::Stopping(StepOutcome::Cancelled),
            Action::StopContainer,
        ),
        Runner::logged(image, Phase::Executing, event, true) == Seq::<u8>::empty(),
{
}

/// Whether a container that is disposed of after a cancelled command is
/// on its way to a cancelled run: it is being stopped or deleted, or the
/// run has ended as cancelled, all at the step `cursor`.
pub open spec fn winding_down(state: RunState, cursor: nat) -> bool {
    &&& state.cursor == cursor
    &&& state.phase == Phase::Stopping(StepOutcome::Cancelled) || state.phase == Phase::Deleting(
        StepOutcome::Cancelled,
    ) || state.phase == Phase::Finished(ExecutionOutcome::Cancelled)
}

/// After a command was cancelled, nothing that is reported can turn the run
/// into a success or let another step begin: the run stays at its step
/// until it has ended as cancelled.
pub proof fn lemma_cancelled_stays_cancelled(kinds: Seq<bool>, state: RunState, inputs: Seq<(Event, bool)>)
    requires
        winding_down(state, state.cursor),
    ensures
        winding_down(Runner::run(kinds, state, inputs), state.cursor),
        Runner::outcome_of(Runner::run(kinds, state, inputs).phase) != ExecutionOutcome::Succeeded,
    decreases inputs.len(),
{
    if inputs.len() > 0 {
        let after = Runner::next(kinds, state, inputs[0].0, inputs[0].1).0;
        assert(winding_down(after, state.cursor));
        lemma_cancelled_stays_cancelled(kinds, after, inputs.drop_first());
    }
}

/// A stop that is asked through the registry reaches the run: the signal
/// that the registry then holds for the execution cuts the command off at
/// the next piece of output, and the run ends as cancelled, not as a
/// success, once the container is disposed of.
pub proof fn lemma_stop_cancels_execution(
    running: Map<Seq<char>, CancellationHandle>,
    id: Seq<char>,
    kinds: Seq<bool>,
    cursor: nat,
    event: Event,
    disposal: Seq<(Event, bool)>,
)
    requires
        running.contains_key(id),
        cursor < kinds.len(),
        event is Chunk || event is EngineError,
    ensures
        ({
            let asked = stop_asked(Some(ExecutionRegistry::cancelled(running, id)[id]));
            let executing = RunState { cursor, phase: Phase::Executing };
            let (cut, action) = Runner::next(kinds, executing, event, asked);
            let end = Runner::run(kinds, cut, disposal);
            &&& asked
            &&& cut == RunState { cursor, phase: Phase::Stopping(StepOutcome::Cancelled) }
            &&& action == Action::StopContainer
            &&& winding_down(end, cursor)
            &&& Runner::outcome_of(end.phase) != ExecutionOutcome::Succeeded
            &&& end.phase is Finished ==> end.phase == Phase::Finished(ExecutionOutcome::Cancelled)
        }),
{
    crate::registry::lemma_cancel_signals(running, id);
    let executing = RunState { cursor, phase: Phase::Executing };
    let cut = Runner::next(kinds, executing, event, true).0;
    lemma_cancelled_stays_cancelled(kinds, cut, disposal);
}

/// A container whose command has begun is always disposed of: whatever
/// ends the command, the container is stopped next, and what is reported of
/// the disposal leaves the outcome of the command as it was.
pub proof fn lemma_dispose_on_all_paths(kinds: Seq<bool>, cursor: nat, event: Event, stop: bool, outcome: StepOutcome)
    requires
        cursor < kinds.len(),
    ensures
        ({
            let (after, action) = Runner::next(kinds, RunState { cursor, phase: Phase::Executing }, event, stop);
            ||| after.phase == Phase::Executing && action == Action::NextChunk
            ||| after.phase is Stopping && action == Action::StopContainer
        }),
        ({
            let (after, action) = Runner::next(kinds, RunState { cursor, phase: Phase::Stopping(outcome) }, event, stop);
            ||| after.phase == Phase::Deleting(outcome) && action == Action::DeleteContainer
            ||| (after, action) == Runner::complete(kinds, cursor, outcome)
        }),
        Runner::next(kinds, RunState { cursor, phase: Phase::Deleting(outcome) }, event, stop) == Runner::complete(
            kinds,
            cursor,
            outcome,
        ),
{
}

} // verus!
