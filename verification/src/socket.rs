use crate::logs::{contents, lines_of, split_lines, unread, LogStream, Tailer};
use crate::pipeline::ExecutionRecord;
use crate::registry::{CancellationHandle, ExecutionRegistry, DUPLICATE_ID};
use crate::types::BldError;
use uuid::Uuid;
use vstd::prelude::*;
use vstd::string::StringExecFns;

verus! {

/// The milliseconds between two liveness probes, and two pushes of the log.
pub const HEARTBEAT_INTERVAL_MS: u64 = 500;

/// The milliseconds without a sign of life after which a client counts as
/// gone.
pub const CLIENT_TIMEOUT_MS: u64 = 10000;

/// The milliseconds between two looks at whether the execution has ended.
pub const POLL_INTERVAL_MS: u64 = 10000;

/// What a client is told when its request cannot be run.
pub const UNABLE_TO_RUN: &'static str = "Unable to run pipeline";

/// What is reported for a request that names no existing pipeline file.
pub const PIPELINE_NOT_FOUND: &'static str = "pipeline file not found";

/// What is reported for a request on a connection that has an execution
/// already, or is closed.
pub const NOT_IDLE: &'static str = "connection already has an execution";

/// The state of a connection.
#[derive(Debug, Clone, Copy, PartialEq, Eq, Structural)]
pub enum ConnState {
    /// No execution was asked for yet.
    Idle,
    /// An execution was accepted; its log is pushed to the client.
    Streaming,
    /// The connection is over.
    Closed,
}

/// Why a request to run a pipeline is not accepted.
#[derive(Debug, Clone, Copy, PartialEq, Eq, Structural)]
pub enum Refusal {
    /// The request could not be read.
    Unreadable,
    /// The pipeline that the request names has no file.
    MissingFile,
    /// The connection has an execution already, or is closed.
    NotIdle,
    /// The id that was drawn for the execution is in use.
    TakenId,
}

/// A request to run a pipeline, as a client sends it.
#[derive(Debug, Clone, PartialEq, Eq)]
pub struct ExecInfo {
    /// The name of the pipeline.
    pub name: String,
    /// The variables to run it with, if any.
    pub variables: Option<Vec<(String, String)>>,
}

/// An execution that was accepted and is ready to be run.
#[derive(Debug, Clone, PartialEq, Eq)]
pub struct PipelineInfo {
    /// The id of the execution.
    pub id: String,
    /// The name of the pipeline.
    pub name: String,
    /// The path of the execution's log.
    pub logs: String,
    /// The variables to run the pipeline with.
    pub vars: Vec<(String, String)>,
    /// The record of the execution, to be kept.
    pub record: ExecutionRecord,
}

/// What arrives on a connection.
#[derive(Debug, PartialEq, Eq)]
pub enum SocketMessage {
    /// A text frame: the request it holds, or why it could not be read, and
    /// whether the pipeline that the request names has a file.
    Text { request: Result<ExecInfo, String>, is_file: bool },
    /// A liveness probe of the client.
    Ping(Vec<u8>),
    /// The client's answer to a probe.
    Pong,
    /// The client closes the connection.
    Close,
    /// A frame of any other kind.
    Other,
    /// The transport failed.
    Fault,
}

/// What is to be done on a connection after a message.
#[derive(Debug, Clone, PartialEq, Eq)]
pub enum Reply {
    /// Run the execution on a task of its own.
    Spawn(PipelineInfo),
    /// Tell the client that its request cannot be run, and end the
    /// connection.
    Refuse,
    /// Answer the probe with its own payload.
    Pong(Vec<u8>),
    /// Nothing.
    Nothing,
    /// Acknowledge the close, and end the connection.
    Close,
    /// End the connection.
    Stop,
}

/// What the fast timer of a connection brings.
#[derive(Debug, Clone, PartialEq, Eq)]
pub struct Tick {
    /// Whether the client is still there: a probe is to be sent. Where it
    /// is not, the connection ends.
    pub alive: bool,
    /// The lines of the log to push.
    pub lines: Vec<Vec<u8>>,
}

/// What the slow timer of a connection brings.
#[derive(Debug, Clone, PartialEq, Eq)]
pub struct Poll {
    /// The lines of the log to push.
    pub lines: Vec<Vec<u8>>,
    /// Whether the connection ends, the execution being over.
    pub stop: bool,
}

/// Whether `c` is a digit of a lower-case hexadecimal number.
pub open spec fn is_hex_digit(c: char) -> bool {
    ||| c == '0' || c == '1' || c == '2' || c == '3' || c == '4'
    ||| c == '5' || c == '6' || c == '7' || c == '8' || c == '9'
    ||| c == 'a' || c == 'b' || c == 'c' || c == 'd' || c == 'e' || c == 'f'
}

/// Whether `id` has the form of an execution id: 32 hexadecimal digits in
/// groups of 8, 4, 4, 4 and 12, with a hyphen between two groups.
pub open spec fn is_execution_id(id: Seq<char>) -> bool {
    &&& id.len() == 36
    &&& forall|i: int|
        0 <= i < 36 ==> if i == 8 || i == 13 || i == 18 || i == 23 {
            id[i] == '-'
        } else {
            is_hex_digit(#[trigger] id[i])
        }
}

/// `Uuid::new_v4`, written out by `to_string`: a fresh random id. Trusted:
/// the text is the hyphenated lower-case form. Nothing is said of which id
/// it is. The call does not return where the system has no random bytes to
/// give.
#[verifier::external_body]
fn new_execution_id() -> (id: String)
    ensures
        is_execution_id(id@),
{
    Uuid::new_v4().to_string()
}

/// The path of the log of an execution: in the directory of the logs, the
/// pipeline's name, a hyphen and the execution's id.
pub open spec fn log_path(logs: Seq<char>, name: Seq<char>, id: Seq<char>) -> Seq<char> {
    logs + "/"@ + name + "-"@ + id
}

/// Whether a client that was last heard of at `last_seen` counts as gone at
/// `now`: the time since is longer than the timeout.
pub open spec fn timed_out(last_seen: u64, now: u64) -> bool {
    now > last_seen && now - last_seen > CLIENT_TIMEOUT_MS
}

/// One connection of a client that asks for an execution and is then sent
/// the execution's log.
pub struct ExecutePipelineSocket {
    hb: u64,
    user: String,
    logs: String,
    state: ConnState,
    exec_id: Option<String>,
    scanner: Option<Tailer>,
}

impl ExecutePipelineSocket {
    /// When the client was last heard of.
    pub closed spec fn last_seen(self) -> u64 {
        self.hb
    }

    /// The user at the other end.
    pub closed spec fn user(self) -> Seq<char> {
        self.user@
    }

    /// The directory of the logs.
    pub closed spec fn logs(self) -> Seq<char> {
        self.logs@
    }

    /// The state of the connection.
    pub closed spec fn state(self) -> ConnState {
        self.state
    }

    /// The id of the execution that the connection asked for, if any.
    pub closed spec fn execution(self) -> Option<Seq<char>> {
        match self.exec_id {
            Some(id) => Some(id@),
            None => None,
        }
    }

    /// The reader of the execution's log, if there is an execution.
    pub closed spec fn scanner(self) -> Option<Tailer> {
        self.scanner
    }

    /// Why a request is not accepted, if it is not. The reasons are looked
    /// for in the order in which `Refusal` lists them.
    pub open spec fn refusal(
        state: ConnState,
        running: Map<Seq<char>, CancellationHandle>,
        request: Result<ExecInfo, String>,
        is_file: bool,
        id: Seq<char>,
    ) -> Option<Refusal> {
        if request is Err {
            Some(Refusal::Unreadable)
        } else if !is_file {
            Some(Refusal::MissingFile)
        } else if state != ConnState::Idle {
            Some(Refusal::NotIdle)
        } else if running.contains_key(id) {
            Some(Refusal::TakenId)
        } else {
            None
        }
    }

    /// Whether `error` is what is reported for a request that is refused
    /// for the reason `why`.
    pub open spec fn reports(error: BldError, why: Refusal, request: Result<ExecInfo, String>) -> bool {
        match why {
            Refusal::Unreadable => {
                &&& error matches BldError::SerdeError(text)
                &&& request matches Err(complaint)
                &&& text@ == complaint@
            },
            Refusal::MissingFile => error matches BldError::IoError(text) && text@ == PIPELINE_NOT_FOUND@,
            Refusal::NotIdle => error matches BldError::Other(text) && text@ == NOT_IDLE@,
            Refusal::TakenId => error matches BldError::Other(text) && text@ == DUPLICATE_ID@,
        }
    }

    /// Whether `info` is the execution `id` as accepted for `request` on the
    /// connection `before`.
    pub open spec fn describes(
        before: ExecutePipelineSocket,
        request: ExecInfo,
        id: Seq<char>,
        start_date: Seq<char>,
        info: PipelineInfo,
    ) -> bool {
        &&& info.id@ == id
        &&& info.name@ == request.name@
        &&& info.logs@ == log_path(before.logs(), request.name@, id)
        &&& match request.variables {
            Some(vars) => info.vars == vars,
            None => info.vars@.len() == 0,
        }
        &&& info.record.running()
        &&& info.record.id_text() == id
        &&& info.record.name_text() == request.name@
        &&& info.record.user_text() == before.user()
        &&& info.record.start_text() == start_date
    }

    /// Whether `after`, `registry` and `result` are what comes of a request
    /// for which the id `id` was drawn. A request that is refused changes
    /// nothing. One that is accepted is registered with a signal that was
    /// not given, and the connection streams its log from the beginning.
    pub open spec fn accepted(
        before: ExecutePipelineSocket,
        running: Map<Seq<char>, CancellationHandle>,
        request: Result<ExecInfo, String>,
        is_file: bool,
        id: Seq<char>,
        start_date: Seq<char>,
        after: ExecutePipelineSocket,
        registry: Map<Seq<char>, CancellationHandle>,
        result: Result<PipelineInfo, BldError>,
    ) -> bool {
        &&& after.last_seen() == before.last_seen()
        &&& after.user() == before.user()
        &&& after.logs() == before.logs()
        &&& match Self::refusal(before.state(), running, request, is_file, id) {
            Some(why) => {
                &&& result matches Err(e)
                &&& Self::reports(e, why, request)
                &&& after.state() == before.state()
                &&& after.execution() == before.execution()
                &&& after.scanner() == before.scanner()
                &&& registry == running
            },
            None => {
                &&& result matches Ok(info)
                &&& request matches Ok(asked)
                &&& Self::describes(before, asked, id, start_date, info)
                &&& after.state() == ConnState::Streaming
                &&& after.execution() == Some(id)
                &&& after.scanner() matches Some(tailer)
                &&& tailer.cursor() == 0
                &&& tailer.delivered() == Seq::<u8>::empty()
                &&& registry == ExecutionRegistry::registered(running, id, CancellationHandle::fresh())
                &&& !registry[id].fired()
            },
        }
    }

    /// A connection of `user` that was opened at `now`, on a server that
    /// keeps its logs in the directory `logs`.
    pub fn new(user: String, logs: String, now: u64) -> (socket: ExecutePipelineSocket)
        ensures
            socket.last_seen() == now,
            socket.user() == user@,
            socket.logs() == logs@,
            socket.state() == ConnState::Idle,
            socket.execution() is None,
            socket.scanner() is None,
    {
        ExecutePipelineSocket { hb: now, user, logs, state: ConnState::Idle, exec_id: None, scanner: None }
    }

    /// The state of the connection.
    pub fn status(&self) -> (state: ConnState)
        ensures
            state == self.state(),
    {
        self.state
    }

    /// The id of the execution that the connection asked for, if any.
    pub fn execution_id(&self) -> (id: Option<&String>)
        ensures
            match id {
                Some(id) => self.execution() == Some(id@),
                None => self.execution() is None,
            },
    {
        self.exec_id.as_ref()
    }

    /// Takes in a request for which the id `id` was drawn.
    pub fn accept(
        &mut self,
        request: Result<ExecInfo, String>,
        is_file: bool,
        id: String,
        start_date: String,
        registry: &mut ExecutionRegistry,
    ) -> (result: Result<PipelineInfo, BldError>)
        ensures
            Self::accepted(
                *old(self),
                old(registry)@,
                request,
                is_file,
                id@,
                start_date@,
                *final(self),
                final(registry)@,
                result,
            ),
    {
        let asked = match request {
            Err(why) => {
                return Err(BldError::SerdeError(why));
            },
            Ok(asked) => asked,
        };
        if !is_file {
            return Err(BldError::IoError(PIPELINE_NOT_FOUND.to_owned()));
        }
        match self.state {
            ConnState::Idle => {},
            _ => {
                return Err(BldError::Other(NOT_IDLE.to_owned()));
            },
        }
        match registry.register(id.clone(), CancellationHandle::new()) {
            Err(e) => {
                return Err(e);
            },
            Ok(_) => {},
        }
        let mut logs = self.logs.clone();
        logs.append("/");
        logs.append(asked.name.as_str());
        logs.append("-");
        logs.append(id.as_str());
        let record = ExecutionRecord::new(id.clone(), asked.name.clone(), self.user.clone(), start_date);
        let vars = match asked.variables {
            Some(vars) => vars,
            None => Vec::new(),
        };
        self.state = ConnState::Streaming;
        self.exec_id = Some(id.clone());
        self.scanner = Some(Tailer::new());
        Ok(PipelineInfo { id, name: asked.name, logs, vars, record })
    }

    /// Takes in a request: draws a fresh id for it, and accepts it under
    /// that id. Whatever id was drawn, a request that could not be read,
    /// or that names no existing pipeline file, or that comes on a
    /// connection that is not idle, is refused and changes nothing.
    pub fn get_info(
        &mut self,
        request: Result<ExecInfo, String>,
        is_file: bool,
        start_date: String,
        registry: &mut ExecutionRegistry,
    ) -> (result: Result<PipelineInfo, BldError>)
        ensures
            exists|id: Seq<char>|
                is_execution_id(id) && #[trigger] Self::accepted(
                    *old(self),
                    old(registry)@,
                    request,
                    is_file,
                    id,
                    start_date@,
                    *final(self),
                    final(registry)@,
                    result,
                ),
    {
        let id = new_execution_id();
        let ghost drawn = id@;
        let result = self.accept(request, is_file, id, start_date, registry);
        assert(Self::accepted(
            *old(self),
            old(registry)@,
            request,
            is_file,
            drawn,
            start_date@,
            *self,
            registry@,
            result,
        ));
        result
    }

    /// Whether `after` is `before` with the given state and time of the
    /// last sign of life, and all else as it was.
    pub open spec fn same_but(
        before: ExecutePipelineSocket,
        after: ExecutePipelineSocket,
        state: ConnState,
        last_seen: u64,
    ) -> bool {
        &&& after.state() == state
        &&& after.last_seen() == last_seen
        &&& after.user() == before.user()
        &&& after.logs() == before.logs()
        &&& after.execution() == before.execution()
        &&& after.scanner() == before.scanner()
    }

    /// The state of a connection after its client was probed at `now`: a
    /// client that was silent for too long has its connection closed.
    pub open spec fn after_heartbeat(state: ConnState, last_seen: u64, now: u64) -> ConnState {
        if timed_out(last_seen, now) {
            ConnState::Closed
        } else {
            state
        }
    }

    /// Whether `after`, `registry` and `reply` are what comes of `msg`,
    /// arriving at `now`, where the id `id` was drawn for a request. A
    /// connection that is closed takes nothing in. A request that is
    /// refused ends the connection, and leaves no trace but that. A probe
    /// or its answer is a sign of life. All else ends the connection.
    pub open spec fn handled(
        before: ExecutePipelineSocket,
        running: Map<Seq<char>, CancellationHandle>,
        msg: SocketMessage,
        now: u64,
        id: Seq<char>,
        start_date: Seq<char>,
        after: ExecutePipelineSocket,
        registry: Map<Seq<char>, CancellationHandle>,
        reply: Reply,
    ) -> bool {
        if before.state() == ConnState::Closed {
            &&& reply is Nothing
            &&& Self::same_but(before, after, ConnState::Closed, before.last_seen())
            &&& registry == running
        } else {
            match msg {
                SocketMessage::Text { request, is_file } => match Self::refusal(
                    before.state(),
                    running,
                    request,
                    is_file,
                    id,
                ) {
                    Some(_) => {
                        &&& reply is Refuse
                        &&& Self::same_but(before, after, ConnState::Closed, before.last_seen())
                        &&& registry == running
                    },
                    None => {
                        &&& reply matches Reply::Spawn(info)
                        &&& Self::accepted(
                            before,
                            running,
                            request,
                            is_file,
                            id,
                            start_date,
                            after,
                            registry,
                            Ok(info),
                        )
                    },
                },
                SocketMessage::Ping(payload) => {
                    &&& reply matches Reply::Pong(answer)
                    &&& answer@ == payload@
                    &&& Self::same_but(before, after, before.state(), now)
                    &&& registry == running
                },
                SocketMessage::Pong => {
                    &&& reply is Nothing
                    &&& Self::same_but(before, after, before.state(), now)
                    &&& registry == running
                },
                SocketMessage::Close => {
                    &&& reply is Close
                    &&& Self::same_but(before, after, ConnState::Closed, before.last_seen())
                    &&& registry == running
                },
                _ => {
                    &&& reply is Stop
                    &&& Self::same_but(before, after, ConnState::Closed, before.last_seen())
                    &&& registry == running
                },
            }
        }
    }

    /// Probes the client at `now`. Returns whether the client is still
    /// there, so that a probe is to be sent. A client that was silent for
    /// longer than the timeout is given up: the connection closes. The
    /// execution that the connection asked for is not touched.
    pub fn heartbeat(&mut self, now: u64) -> (alive: bool)
        ensures
            alive == (old(self).state() != ConnState::Closed && !timed_out(old(self).last_seen(), now)),
            Self::same_but(
                *old(self),
                *final(self),
                Self::after_heartbeat(old(self).state(), old(self).last_seen(), now),
                old(self).last_seen(),
            ),
    {
        if now > self.hb && now - self.hb > CLIENT_TIMEOUT_MS {
            self.state = ConnState::Closed;
            false
        } else {
            match self.state {
                ConnState::Closed => false,
                _ => true,
            }
        }
    }

    /// The lines that were written to the log of the execution since they
    /// were last asked for. There are none without an execution, and none
    /// on a closed connection.
    pub fn scan(&mut self, stream: &LogStream) -> (lines: Vec<Vec<u8>>)
        ensures
            final(self).state() == old(self).state(),
            final(self).last_seen() == old(self).last_seen(),
            final(self).user() == old(self).user(),
            final(self).logs() == old(self).logs(),
            final(self).execution() == old(self).execution(),
            match old(self).scanner() {
                Some(tailer) => if old(self).state() == ConnState::Closed {
                    lines@.len() == 0 && final(self).scanner() == old(self).scanner()
                } else {
                    let fresh = unread(stream@, tailer.cursor());
                    &&& contents(lines@) == lines_of(fresh)
                    &&& final(self).scanner() matches Some(moved)
                    &&& moved.cursor() == tailer.cursor() + fresh.len()
                    &&& moved.delivered() == tailer.delivered() + fresh
                    &&& tailer.delivered().is_prefix_of(stream@) ==> moved.delivered() == stream@
                },
                None => lines@.len() == 0 && final(self).scanner() is None,
            },
    {
        match self.state {
            ConnState::Closed => {
                return Vec::new();
            },
            _ => {},
        }
        let mut scanner: Option<Tailer> = None;
        std::mem::swap(&mut self.scanner, &mut scanner);
        match scanner {
            Some(mut tailer) => {
                let fresh = tailer.fetch_new(stream);
                self.scanner = Some(tailer);
                split_lines(&fresh)
            },
            None => Vec::new(),
        }
    }

    /// Looks at the record of the execution, where there is one: once the
    /// execution is over, the connection closes. Returns whether it closed.
    pub fn check_finished(&mut self, record: Option<&ExecutionRecord>) -> (stop: bool)
        ensures
            stop == (old(self).state() != ConnState::Closed && old(self).execution() is Some && (
            record matches Some(kept) && !kept.running())),
            Self::same_but(
                *old(self),
                *final(self),
                if stop {
                    ConnState::Closed
                } else {
                    old(self).state()
                },
                old(self).last_seen(),
            ),
    {
        match self.state {
            ConnState::Closed => {
                return false;
            },
            _ => {},
        }
        if self.exec_id.is_none() {
            return false;
        }
        match record {
            Some(kept) => {
                if !kept.is_running() {
                    self.state = ConnState::Closed;
                    true
                } else {
                    false
                }
            },
            None => false,
        }
    }

    /// The fast timer: probes the client, then pushes what is new of the log.
    pub fn tick(&mut self, now: u64, stream: &LogStream) -> (tick: Tick)
        ensures
            tick.alive == (old(self).state() != ConnState::Closed && !timed_out(old(self).last_seen(), now)),
            final(self).state() == Self::after_heartbeat(old(self).state(), old(self).last_seen(), now),
            final(self).last_seen() == old(self).last_seen(),
            final(self).user() == old(self).user(),
            final(self).logs() == old(self).logs(),
            final(self).execution() == old(self).execution(),
            !tick.alive ==> tick.lines@.len() == 0 && final(self).scanner() == old(self).scanner(),
            tick.alive ==> match old(self).scanner() {
                Some(tailer) => {
                    let fresh = unread(stream@, tailer.cursor());
                    &&& contents(tick.lines@) == lines_of(fresh)
                    &&& final(self).scanner() matches Some(moved)
                    &&& moved.cursor() == tailer.cursor() + fresh.len()
                    &&& moved.delivered() == tailer.delivered() + fresh
                    &&& tailer.delivered().is_prefix_of(stream@) ==> moved.delivered() == stream@
                },
                None => tick.lines@.len() == 0 && final(self).scanner() is None,
            },
    {
        let alive = self.heartbeat(now);
        let lines = self.scan(stream);
        Tick { alive, lines }
    }

    /// The slow timer: pushes what is new of the log, then looks whether the
    /// execution is over, and closes the connection if it is.
    pub fn poll(&mut self, stream: &LogStream, record: Option<&ExecutionRecord>) -> (poll: Poll)
        ensures
            poll.stop == (old(self).state() != ConnState::Closed && old(self).execution() is Some && (
            record matches Some(kept) && !kept.running())),
            final(self).state() == (if poll.stop {
                ConnState::Closed
            } else {
                old(self).state()
            }),
            final(self).last_seen() == old(self).last_seen(),
            final(self).user() == old(self).user(),
            final(self).logs() == old(self).logs(),
            final(self).execution() == old(self).execution(),
            match old(self).scanner() {
                Some(tailer) => if old(self).state() == ConnState::Closed {
                    poll.lines@.len() == 0 && final(self).scanner() == old(self).scanner()
                } else {
                    let fresh = unread(stream@, tailer.cursor());
                    &&& contents(poll.lines@) == lines_of(fresh)
                    &&& final(self).scanner() matches Some(moved)
                    &&& moved.cursor() == tailer.cursor() + fresh.len()
                    &&& moved.delivered() == tailer.delivered() + fresh
                    &&& tailer.delivered().is_prefix_of(stream@) ==> moved.delivered() == stream@
                },
                None => poll.lines@.len() == 0 && final(self).scanner() is None,
            },
    {
        let lines = self.scan(stream);
        let stop = self.check_finished(record);
        Poll { lines, stop }
    }

    /// Takes in a message that arrived at `now`, where `id` is the id drawn
    /// for it in case it is a request.
    pub fn handle_with_id(
        &mut self,
        msg: SocketMessage,
        now: u64,
        id: String,
        start_date: String,
        registry: &mut ExecutionRegistry,
    ) -> (reply: Reply)
        ensures
            Self::handled(
                *old(self),
                old(registry)@,
                msg,
                now,
                id@,
                start_date@,
                *final(self),
                final(registry)@,
                reply,
            ),
    {
        match self.state {
            ConnState::Closed => {
                return Reply::Nothing;
            },
            _ => {},
        }
        match msg {
            SocketMessage::Text { request, is_file } => {
                match self.accept(request, is_file, id, start_date, registry) {
                    Ok(info) => Reply::Spawn(info),
                    Err(_) => {
                        self.state = ConnState::Closed;
                        Reply::Refuse
                    },
                }
            },
            SocketMessage::Ping(payload) => {
                self.hb = now;
                Reply::Pong(payload)
            },
            SocketMessage::Pong => {
                self.hb = now;
                Reply::Nothing
            },
            SocketMessage::Close => {
                self.state = ConnState::Closed;
                Reply::Close
            },
            _ => {
                self.state = ConnState::Closed;
                Reply::Stop
            },
        }
    }

    /// Takes in a message that arrived at `now`. For a request a fresh id is
    /// drawn. Whatever id was drawn, a request that could not be read, or
    /// that names no existing pipeline file, or that comes on a connection
    /// that has an execution already, is refused.
    pub fn handle(
        &mut self,
        msg: SocketMessage,
        now: u64,
        start_date: String,
        registry: &mut ExecutionRegistry,
    ) -> (reply: Reply)
        ensures
            exists|id: Seq<char>|
                (msg is Text ==> is_execution_id(id)) && #[trigger] Self::handled(
                    *old(self),
                    old(registry)@,
                    msg,
                    now,
                    id,
                    start_date@,
                    *final(self),
                    final(registry)@,
                    reply,
                ),
    {
        let id = match &msg {
            SocketMessage::Text { .. } => new_execution_id(),
            _ => String::new(),
        };
        let ghost drawn = id@;
        let reply = self.handle_with_id(msg, now, id, start_date, registry);
        assert(Self::handled(
            *old(self),
            old(registry)@,
            msg,
            now,
            drawn,
            start_date@,
            *self,
            registry@,
            reply,
        ));
        reply
    }
}

/// A request that names no existing pipeline file is refused as a missing
/// file, whatever else holds of it, and leaves no trace: the connection and
/// the registry stay as they were, and no execution comes of it.
pub proof fn lemma_missing_file_is_refused(
    before: ExecutePipelineSocket,
    running: Map<Seq<char>, CancellationHandle>,
    asked: ExecInfo,
    id: Seq<char>,
    start_date: Seq<char>,
    after: ExecutePipelineSocket,
    registry: Map<Seq<char>, CancellationHandle>,
    result: Result<PipelineInfo, BldError>,
)
    requires
        ExecutePipelineSocket::accepted(before, running, Ok(asked), false, id, start_date, after, registry, result),
    ensures
        result matches Err(BldError::IoError(text)) && text@ == PIPELINE_NOT_FOUND@,
        registry == running,
        after.state() == before.state(),
        after.execution() == before.execution(),
        after.scanner() == before.scanner(),
{
}

/// A request frame that names no existing pipeline file ends the
/// connection with a refusal, and registers nothing.
pub proof fn lemma_missing_file_closes(
    before: ExecutePipelineSocket,
    running: Map<Seq<char>, CancellationHandle>,
    asked: ExecInfo,
    now: u64,
    id: Seq<char>,
    start_date: Seq<char>,
    after: ExecutePipelineSocket,
    registry: Map<Seq<char>, CancellationHandle>,
    reply: Reply,
)
    requires
        before.state() != ConnState::Closed,
        ExecutePipelineSocket::handled(
            before,
            running,
            SocketMessage::Text { request: Ok(asked), is_file: false },
            now,
            id,
            start_date,
            after,
            registry,
            reply,
        ),
    ensures
        reply is Refuse,
        after.state() == ConnState::Closed,
        after.execution() == before.execution(),
        registry == running,
{
}

/// A client that gave no sign of life for longer than the timeout has its
/// connection closed at the next probe, in whatever state it was.
pub proof fn lemma_silence_closes(state: ConnState, last_seen: u64, now: u64)
    requires
        now - last_seen > CLIENT_TIMEOUT_MS,
    ensures
        timed_out(last_seen, now),
        ExecutePipelineSocket::after_heartbeat(state, last_seen, now) == ConnState::Closed,
{
}

/// A client that was heard of within the timeout keeps its connection as
/// it is.
pub proof fn lemma_sign_of_life_keeps(state: ConnState, last_seen: u64, now: u64)
    requires
        now - last_seen <= CLIENT_TIMEOUT_MS,
    ensures
        ExecutePipelineSocket::after_heartbeat(state, last_seen, now) == state,
{
}

} // verus!