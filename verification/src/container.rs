use crate::logs::{LogStream, NEWLINE};
use crate::registry::CancellationHandle;
use crate::types::{BldError, StepOutcome};
use vstd::prelude::*;
use vstd::string::{StringExecFns, StringSliceAdditionalSpecFns};
use vstd::utf8::encode_utf8;

verus! {

/// What is reported for a container that is used before it was started.
pub const NOT_STARTED: &'static str = "container not started";

/// What is reported for a started container that has no id.
pub const NO_ID: &'static str = "container id not found";

/// What is written to the log before an image is pulled, followed by the
/// image's name.
pub const DOWNLOAD_NOTICE: &'static str = "Download image: ";

/// The milliseconds to wait between two reads of a container's output, and
/// between two progress messages of a pull.
pub const CHUNK_DELAY_MS: u64 = 100;

/// One container for one step: the image it is made from and, once it was
/// started, the engine it runs on and the id the engine gave it.
#[derive(Debug, Clone, PartialEq, Eq)]
pub struct Container {
    /// The image that the container is made from.
    pub img: String,
    /// The address of the engine that runs the container, once started.
    pub client: Option<String>,
    /// The id that the engine gave the container, once started.
    pub id: Option<String>,
}

/// A command to run inside a container, as it is handed to the engine.
#[derive(Debug, Clone, PartialEq, Eq)]
pub struct ExecRequest {
    /// The id of the container to run in.
    pub id: String,
    /// The program and its arguments.
    pub cmd: Vec<String>,
    /// Whether the command's standard output is read.
    pub attach_stdout: bool,
    /// Whether the command's standard error is read.
    pub attach_stderr: bool,
}

/// A piece of what a command in a container wrote.
#[derive(Debug, Clone, PartialEq, Eq)]
pub enum TtyChunk {
    /// Bytes from the command's standard output.
    StdOut(Vec<u8>),
    /// Bytes from the command's standard error.
    StdErr(Vec<u8>),
}

impl TtyChunk {
    /// The bytes of the chunk, whichever stream they came from.
    pub open spec fn bytes(self) -> Seq<u8> {
        match self {
            TtyChunk::StdOut(bytes) => bytes@,
            TtyChunk::StdErr(bytes) => bytes@,
        }
    }
}

/// What to do after a piece of output was looked at.
#[derive(Debug, Clone, Copy, PartialEq, Eq, Structural)]
pub enum ShStatus {
    /// The piece was written to the log: wait, then read the next.
    Proceed,
    /// No more output is read: the command ended in this way.
    Finished(StepOutcome),
}

/// The command that the shell is given: `input`, and before it a change to
/// the working directory where one is set.
pub open spec fn effective_command(working_dir: Option<Seq<char>>, input: Seq<char>) -> Seq<char> {
    match working_dir {
        Some(dir) => "cd "@ + dir + " && "@ + input,
        None => input,
    }
}

/// Whether a stop was asked through `cm`. Without a handle nobody can ask.
pub open spec fn stop_asked(cm: Option<CancellationHandle>) -> bool {
    cm matches Some(handle) && handle.fired()
}

/// What looking at one piece of output gives: a stop that was asked wins over
/// everything; else a chunk is kept and reading goes on, and a fault of the
/// engine ends the command as a failure.
pub open spec fn chunk_status(stop: bool, faulty: bool) -> ShStatus {
    if stop {
        ShStatus::Finished(StepOutcome::Cancelled)
    } else if faulty {
        ShStatus::Finished(StepOutcome::Failure)
    } else {
        ShStatus::Proceed
    }
}

/// What looking at one piece of output adds to the log: the bytes of a
/// chunk, or the engine's complaint as a line; nothing once a stop was asked.
pub open spec fn chunk_logged(stop: bool, chunk: Result<TtyChunk, String>) -> Seq<u8> {
    if stop {
        Seq::empty()
    } else {
        match chunk {
            Ok(piece) => piece.bytes(),
            Err(complaint) => encode_utf8(complaint@) + seq![NEWLINE],
        }
    }
}

/// Builds the command for the shell from a step's command and working
/// directory.
pub fn build_command(working_dir: &Option<String>, input: &str) -> (command: String)
    ensures
        command@ == effective_command(
            match *working_dir {
                Some(dir) => Some(dir@),
                None => None,
            },
            input@,
        ),
{
    match working_dir {
        Some(dir) => {
            let mut command = "cd ".to_owned();
            command.append(dir.as_str());
            command.append(" && ");
            command.append(input);
            command
        },
        None => input.to_owned(),
    }
}

impl Container {
    /// A container of the image `img` that was not started yet.
    pub fn new(img: &str) -> (container: Container)
        ensures
            container.img@ == img@,
            container.client is None,
            container.id is None,
    {
        Container { img: img.to_owned(), client: None, id: None }
    }

    /// The engine that runs the container; an error before the start.
    pub fn get_client(&self) -> (client: Result<&String, BldError>)
        ensures
            match client {
                Ok(address) => self.client == Some(*address),
                Err(e) => {
                    &&& self.client is None
                    &&& e matches BldError::Other(text)
                    &&& text@ == NOT_STARTED@
                },
            },
    {
        match &self.client {
            Some(client) => Ok(client),
            None => Err(BldError::Other(NOT_STARTED.to_owned())),
        }
    }

    /// The id of the container; an error where it has none.
    pub fn get_id(&self) -> (id: Result<&String, BldError>)
        ensures
            match id {
                Ok(name) => self.id == Some(*name),
                Err(e) => {
                    &&& self.id is None
                    &&& e matches BldError::Other(text)
                    &&& text@ == NO_ID@
                },
            },
    {
        match &self.id {
            Some(id) => Ok(id),
            None => Err(BldError::Other(NO_ID.to_owned())),
        }
    }

    /// Decides whether `image` has to be pulled, given how many images of
    /// that name the engine holds: only where it holds none. A pull is
    /// announced in the log.
    pub fn pull(image: &str, known: usize, logger: &mut LogStream) -> (needed: bool)
        ensures
            needed == (known == 0),
            final(logger)@ == old(logger)@ + (if known == 0 {
                encode_utf8(DOWNLOAD_NOTICE@ + image@) + seq![NEWLINE]
            } else {
                Seq::empty()
            }),
    {
        if known == 0 {
            let mut notice = DOWNLOAD_NOTICE.to_owned();
            notice.append(image);
            logger.append_line(notice.as_str());
            true
        } else {
            assert(logger@ + Seq::<u8>::empty() =~= logger@);
            false
        }
    }

    /// Writes one progress message of a pull to the log, as a line.
    pub fn pulling(info: &str, logger: &mut LogStream)
        ensures
            final(logger)@ == old(logger)@ + encode_utf8(info@) + seq![NEWLINE],
    {
        logger.append_line(info);
    }

    /// The container as started: on the engine at `client`, under the id
    /// `id` that the engine gave it.
    pub fn start(&self, client: &str, id: String) -> (started: Container)
        ensures
            started.img@ == self.img@,
            started.client matches Some(address) && address@ == client@,
            started.id == Some(id),
    {
        Container { img: self.img.clone(), client: Some(client.to_owned()), id: Some(id) }
    }

    /// The request that runs `input` through a shell inside the container,
    /// in `working_dir` where one is set, reading both of its outputs. A
    /// container that was not started has no such request.
    pub fn sh(&self, working_dir: &Option<String>, input: &str) -> (request: Result<ExecRequest, BldError>)
        ensures
            match request {
                Ok(exec) => {
                    &&& self.client is Some
                    &&& self.id matches Some(id) && exec.id@ == id@
                    &&& exec.cmd@.len() == 3
                    &&& exec.cmd@[0]@ == "bash"@
                    &&& exec.cmd@[1]@ == "-c"@
                    &&& exec.cmd@[2]@ == effective_command(
                        match *working_dir {
                            Some(dir) => Some(dir@),
                            None => None,
                        },
                        input@,
                    )
                    &&& exec.attach_stdout
                    &&& exec.attach_stderr
                },
                Err(e) => {
                    &&& e matches BldError::Other(text)
                    &&& if self.client is None {
                        text@ == NOT_STARTED@
                    } else {
                        self.id is None && text@ == NO_ID@
                    }
                },
            },
    {
        match self.get_client() {
            Ok(_) => {},
            Err(e) => {
                return Err(e);
            },
        }
        let id = match self.get_id() {
            Ok(id) => id.clone(),
            Err(e) => {
                return Err(e);
            },
        };
        let mut cmd: Vec<String> = Vec::new();
        cmd.push("bash".to_owned());
        cmd.push("-c".to_owned());
        cmd.push(build_command(working_dir, input));
        Ok(ExecRequest { id, cmd, attach_stdout: true, attach_stderr: true })
    }

    /// Looks at one piece of the command's output. The stop signal is asked
    /// first: once it was given, the piece is dropped and the command counts
    /// as cancelled. Else a chunk goes to the log as it is, and a fault of
    /// the engine goes there as a line and fails the command.
    pub fn chunk(cm: &Option<CancellationHandle>, chunk: Result<TtyChunk, String>, logger: &mut LogStream) -> (status: ShStatus)
        ensures
            status == chunk_status(stop_asked(*cm), chunk is Err),
            final(logger)@ == old(logger)@ + chunk_logged(stop_asked(*cm), chunk),
    {
        let stop = match cm {
            Some(handle) => handle.is_signaled(),
            None => false,
        };
        if stop {
            assert(logger@ + Seq::<u8>::empty() =~= logger@);
            return ShStatus::Finished(StepOutcome::Cancelled);
        }
        match chunk {
            Ok(TtyChunk::StdOut(bytes)) => {
                logger.append_bytes(bytes.as_slice());
                ShStatus::Proceed
            },
            Ok(TtyChunk::StdErr(bytes)) => {
                logger.append_bytes(bytes.as_slice());
                ShStatus::Proceed
            },
            Err(complaint) => {
                logger.append_line(complaint.as_str());
                ShStatus::Finished(StepOutcome::Failure)
            },
        }
    }

    /// The id of the container to stop and then delete; an error for a
    /// container that was not started.
    pub fn dispose(&self) -> (target: Result<&String, BldError>)
        ensures
            match target {
                Ok(id) => self.client is Some && self.id == Some(*id),
                Err(e) => {
                    &&& e matches BldError::Other(text)
                    &&& if self.client is None {
                        text@ == NOT_STARTED@
                    } else {
                        self.id is None && text@ == NO_ID@
                    }
                },
            },
    {
        match self.get_client() {
            Ok(_) => {},
            Err(e) => {
                return Err(e);
            },
        }
        self.get_id()
    }
}

} // verus!
