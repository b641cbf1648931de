use crate::types::ExecutionOutcome;
use vstd::prelude::*;
use vstd::string::StringExecFns;

verus! {

/// One unit of work of a pipeline: a shell command, run on the host or, where
/// an image is named, inside a container of that image.
#[derive(Debug, Clone, PartialEq, Eq)]
pub struct Step {
    /// The image of the container to run in; `None` for the host.
    pub image: Option<String>,
    /// The command, as given to the shell.
    pub shell: String,
    /// The directory to run the command in, if any.
    pub working_dir: Option<String>,
}

impl Step {
    /// Whether the step runs inside a container.
    pub open spec fn containerized(self) -> bool {
        self.image is Some
    }
}

/// A named sequence of steps, run in order.
#[derive(Debug, Clone, PartialEq, Eq)]
pub struct Pipeline {
    pub name: String,
    pub steps: Vec<Step>,
}

impl Pipeline {
    /// For each step in order, whether it runs inside a container.
    pub open spec fn kinds(self) -> Seq<bool> {
        Seq::new(self.steps@.len(), |i: int| self.steps@[i].containerized())
    }
}

/// What is kept of one execution of a pipeline.
#[derive(Debug, Clone, PartialEq, Eq)]
pub struct ExecutionRecord {
    id: String,
    name: String,
    user: String,
    start_date: String,
    outcome: Option<ExecutionOutcome>,
}

impl ExecutionRecord {
    /// The id of the execution.
    pub closed spec fn id_text(self) -> Seq<char> {
        self.id@
    }

    /// The name of the pipeline that is run.
    pub closed spec fn name_text(self) -> Seq<char> {
        self.name@
    }

    /// The user who asked for the run.
    pub closed spec fn user_text(self) -> Seq<char> {
        self.user@
    }

    /// When the run was accepted, as the store writes it.
    pub closed spec fn start_text(self) -> Seq<char> {
        self.start_date@
    }

    /// How the execution ended; `None` while it runs.
    pub closed spec fn outcome(self) -> Option<ExecutionOutcome> {
        self.outcome
    }

    /// Whether the execution still runs.
    pub open spec fn running(self) -> bool {
        self.outcome() is None
    }

    /// The word that the history shows for the state of the execution.
    pub open spec fn status(self) -> Seq<char> {
        match self.outcome() {
            None => "running"@,
            Some(ExecutionOutcome::Succeeded) => "succeeded"@,
            Some(ExecutionOutcome::Failed) => "failed"@,
            Some(ExecutionOutcome::Cancelled) => "cancelled"@,
        }
    }

    /// The line that the history shows for the execution: id, pipeline,
    /// user, start and state, each parted from the next by a blank.
    pub open spec fn summary(self) -> Seq<char> {
        self.id_text() + " "@ + self.name_text() + " "@ + self.user_text() + " "@ + self.start_text()
            + " "@ + self.status()
    }

    /// The record of an execution that was just accepted: it runs.
    pub fn new(id: String, name: String, user: String, start_date: String) -> (record: ExecutionRecord)
        ensures
            record.id_text() == id@,
            record.name_text() == name@,
            record.user_text() == user@,
            record.start_text() == start_date@,
            record.running(),
    {
        ExecutionRecord { id, name, user, start_date, outcome: None }
    }

    /// A record as it was kept, with the outcome that was kept with it.
    pub fn restore(
        id: String,
        name: String,
        user: String,
        start_date: String,
        outcome: Option<ExecutionOutcome>,
    ) -> (record: ExecutionRecord)
        ensures
            record.id_text() == id@,
            record.name_text() == name@,
            record.user_text() == user@,
            record.start_text() == start_date@,
            record.outcome() == outcome,
    {
        ExecutionRecord { id, name, user, start_date, outcome }
    }

    /// The id of the execution.
    pub fn id(&self) -> (id: &String)
        ensures
            id@ == self.id_text(),
    {
        &self.id
    }

    /// The name of the pipeline that is run.
    pub fn name(&self) -> (name: &String)
        ensures
            name@ == self.name_text(),
    {
        &self.name
    }

    /// The user who asked for the run.
    pub fn user(&self) -> (user: &String)
        ensures
            user@ == self.user_text(),
    {
        &self.user
    }

    /// When the run was accepted.
    pub fn start_date(&self) -> (start_date: &String)
        ensures
            start_date@ == self.start_text(),
    {
        &self.start_date
    }

    /// Whether the execution still runs.
    pub fn is_running(&self) -> (running: bool)
        ensures
            running == self.running(),
    {
        self.outcome.is_none()
    }

    /// How the execution ended; `None` while it runs.
    pub fn result(&self) -> (outcome: Option<ExecutionOutcome>)
        ensures
            outcome == self.outcome(),
    {
        self.outcome
    }

    /// Ends the execution with `outcome`. A record ends once: one that has
    /// ended already keeps its outcome. Returns whether the record ended now.
    pub fn finish(&mut self, outcome: ExecutionOutcome) -> (ended: bool)
        ensures
            ended == old(self).running(),
            !final(self).running(),
            final(self).outcome() == (if old(self).running() {
                Some(outcome)
            } else {
                old(self).outcome()
            }),
            final(self).id_text() == old(self).id_text(),
            final(self).name_text() == old(self).name_text(),
            final(self).user_text() == old(self).user_text(),
            final(self).start_text() == old(self).start_text(),
    {
        if self.outcome.is_none() {
            self.outcome = Some(outcome);
            true
        } else {
            false
        }
    }

    /// The line that the history shows for the execution.
    pub fn to_string(&self) -> (line: String)
        ensures
            line@ == self.summary(),
    {
        let status = match self.outcome {
            None => "running",
            Some(ExecutionOutcome::Succeeded) => "succeeded",
            Some(ExecutionOutcome::Failed) => "failed",
            Some(ExecutionOutcome::Cancelled) => "cancelled",
        };
        let mut line = self.id.clone();
        line.append(" ");
        line.append(self.name.as_str());
        line.append(" ");
        line.append(self.user.as_str());
        line.append(" ");
        line.append(self.start_date.as_str());
        line.append(" ");
        line.append(status);
        line
    }
}

/// The history as text: for each record in turn, what came before, a line
/// end, the record's line, and a line end.
pub open spec fn history_text(records: Seq<ExecutionRecord>) -> Seq<char>
    decreases records.len(),
{
    if records.len() == 0 {
        Seq::empty()
    } else {
        history_text(records.drop_last()) + "\n"@ + records.last().summary() + "\n"@
    }
}

/// The history of the executions in `pipelines`, ready to be sent.
pub fn history_info(pipelines: &Vec<ExecutionRecord>) -> (info: String)
    ensures
        info@ == history_text(pipelines@),
{
    let mut info = String::new();
    let mut i: usize = 0;
    while i < pipelines.len()
        invariant
            i <= pipelines@.len(),
            info@ == history_text(pipelines@.take(i as int)),
        decreases pipelines@.len() - i,
    {
        let line = pipelines[i].to_string();
        proof {
            let upto = pipelines@.take(i + 1);
            assert(upto.drop_last() =~= pipelines@.take(i as int));
            assert(upto.last() == pipelines@[i as int]);
        }
        info.append("\n");
        info.append(line.as_str());
        info.append("\n");
        i = i + 1;
    }
    assert(pipelines@.take(i as int) =~= pipelines@);
    info
}

} // verus!
