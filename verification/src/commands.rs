use crate::config::{server_url, url, BldServerConfig};
use crate::types::BldError;
use vstd::prelude::*;

verus! {

/// What `InitCommand::plan` reports where the build directory exists.
pub const ALREADY_INITIALIZED: &'static str = ".bld dir already exists in the current directory";

/// The pipeline that is run where none is named.
pub const DEFAULT_PIPELINE: &'static str = "default";

/// What `str::parse::<i64>` of std makes of a text: the number that the text
/// writes, or `None` where it writes none that fits.
pub uninterp spec fn parsed_i64(text: Seq<char>) -> Option<i64>;

/// `str::parse::<i64>` of std. Trusted: what it returns depends on the text
/// alone; an error is handed on as `None`.
#[verifier::external_body]
fn parse_i64(text: &str) -> (number: Option<i64>)
    ensures
        number == parsed_i64(text@),
{
    text.parse::<i64>().ok()
}

/// Where a pipeline is to be run.
#[derive(Debug, Clone, PartialEq, Eq)]
pub enum RunTarget {
    /// On the named server.
    Server { pipeline: String, server: String },
    /// On this machine.
    Local { pipeline: String },
}

/// Where the pipeline is to be run, given what the command line names: the
/// default pipeline where it names none, on the server where it names one.
pub fn run_target(pipeline: Option<&str>, server: Option<&str>) -> (target: RunTarget)
    ensures
        match target {
            RunTarget::Server { pipeline: chosen, server: on } => {
                &&& server matches Some(named)
                &&& on@ == named@
                &&& chosen@ == (match pipeline {
                    Some(name) => name@,
                    None => DEFAULT_PIPELINE@,
                })
            },
            RunTarget::Local { pipeline: chosen } => {
                &&& server is None
                &&& chosen@ == (match pipeline {
                    Some(name) => name@,
                    None => DEFAULT_PIPELINE@,
                })
            },
        },
{
    let chosen = match pipeline {
        Some(name) => name.to_owned(),
        None => DEFAULT_PIPELINE.to_owned(),
    };
    match server {
        Some(named) => RunTarget::Server { pipeline: chosen, server: named.to_owned() },
        None => RunTarget::Local { pipeline: chosen },
    }
}

/// A command of the tool, as the command line names it.
pub trait BldCommand {
    /// The name of the command.
    spec fn name(&self) -> Seq<char>;

    /// The name of the command.
    fn id(&self) -> (id: &'static str)
        ensures
            id@ == self.name(),
    ;
}

/// The command that logs in to a server.
#[derive(Debug, Clone, Copy, PartialEq, Eq)]
pub struct AuthCommand;

/// The command that shows the executions of a server.
#[derive(Debug, Clone, Copy, PartialEq, Eq)]
pub struct HistCommand;

/// The command that sets up a directory for the tool.
#[derive(Debug, Clone, Copy, PartialEq, Eq)]
pub struct InitCommand;

/// The command that runs the server.
#[derive(Debug, Clone, Copy, PartialEq, Eq)]
pub struct ServerCommand;

impl BldCommand for AuthCommand {
    open spec fn name(&self) -> Seq<char> {
        "login"@
    }

    fn id(&self) -> (id: &'static str) {
        "login"
    }
}

impl BldCommand for HistCommand {
    open spec fn name(&self) -> Seq<char> {
        "hist"@
    }

    fn id(&self) -> (id: &'static str) {
        "hist"
    }
}

impl BldCommand for InitCommand {
    open spec fn name(&self) -> Seq<char> {
        "init"@
    }

    fn id(&self) -> (id: &'static str) {
        "init"
    }
}

impl BldCommand for ServerCommand {
    open spec fn name(&self) -> Seq<char> {
        "server"@
    }

    fn id(&self) -> (id: &'static str) {
        "server"
    }
}

impl AuthCommand {
    /// The command, ready to stand among the others.
    pub fn boxed() -> (command: Box<dyn BldCommand>)
        ensures
            command.name() == "login"@,
    {
        return Box::new(AuthCommand);
    }
}

impl HistCommand {
    /// The command, ready to stand among the others.
    pub fn boxed() -> (command: Box<dyn BldCommand>)
        ensures
            command.name() == "hist"@,
    {
        return Box::new(HistCommand);
    }
}

impl InitCommand {
    /// The command, ready to stand among the others.
    pub fn boxed() -> (command: Box<dyn BldCommand>)
        ensures
            command.name() == "init"@,
    {
        return Box::new(InitCommand);
    }
}

impl ServerCommand {
    /// The command, ready to stand among the others.
    pub fn boxed() -> (command: Box<dyn BldCommand>)
        ensures
            command.name() == "server"@,
    {
        return Box::new(ServerCommand);
    }

    /// The port to listen on: the one that was given, where one was given
    /// and could be read; else the configured one.
    pub open spec fn chosen_port(given: Option<Option<i64>>, configured: i64) -> i64 {
        match given {
            Some(Some(port)) => port,
            _ => configured,
        }
    }

    /// The port to listen on, given what was read of the one on the command
    /// line, if there was one.
    pub fn pick_port(given: Option<Option<i64>>, configured: i64) -> (port: i64)
        ensures
            port == Self::chosen_port(given, configured),
    {
        match given {
            Some(Some(port)) => port,
            _ => configured,
        }
    }

    /// The host and port to listen on: those of the command line, and for
    /// what it does not give, or gives unreadably, the configured ones.
    pub fn address(host: Option<&str>, port: Option<&str>, local_host: &str, local_port: i64) -> (address: (
        String,
        i64,
    ))
        ensures
            address.0@ == (match host {
                Some(given) => given@,
                None => local_host@,
            }),
            address.1 == Self::chosen_port(
                match port {
                    Some(given) => Some(parsed_i64(given@)),
                    None => None,
                },
                local_port,
            ),
    {
        let host = match host {
            Some(given) => given.to_owned(),
            None => local_host.to_owned(),
        };
        let read = match port {
            Some(given) => Some(parse_i64(given)),
            None => None,
        };
        (host, Self::pick_port(read, local_port))
    }
}

impl HistCommand {
    /// The address that the history of `server` is fetched from.
    pub fn url(server: &BldServerConfig) -> (address: String)
        ensures
            address@ == url(server.host@, server.port, "/hist"@),
    {
        server_url(server, "/hist")
    }
}

/// The address at which `server` lets executions be watched.
pub fn monit_url(server: &BldServerConfig) -> (address: String)
    ensures
        address@ == url(server.host@, server.port, "/ws-monit"@),
{
    server_url(server, "/ws-monit")
}

/// One thing that `init` creates.
#[derive(Debug, Clone, Copy, PartialEq, Eq, Structural)]
pub enum InitStep {
    /// The directory of the tool.
    BuildDir,
    /// The directory of the logs of a server.
    LogsDir,
    /// The directory of the store of a server.
    DbDir,
    /// The default pipeline.
    DefaultYaml,
    /// The configuration, of a server or of a client.
    ConfigYaml { server: bool },
}

impl InitCommand {
    /// What `init` creates, in order: the directory, for a server the
    /// directories of its logs and its store, the default pipeline and the
    /// configuration.
    pub open spec fn steps(is_server: bool) -> Seq<InitStep> {
        if is_server {
            seq![
                InitStep::BuildDir,
                InitStep::LogsDir,
                InitStep::DbDir,
                InitStep::DefaultYaml,
                InitStep::ConfigYaml { server: true },
            ]
        } else {
            seq![InitStep::BuildDir, InitStep::DefaultYaml, InitStep::ConfigYaml { server: false }]
        }
    }

    /// What `init` has to create. Where the directory of the tool exists
    /// already, nothing is created, and that is an error.
    pub fn plan(build_dir_exists: bool, is_server: bool) -> (plan: Result<Vec<InitStep>, BldError>)
        ensures
            match plan {
                Ok(steps) => !build_dir_exists && steps@ == Self::steps(is_server),
                Err(e) => {
                    &&& build_dir_exists
                    &&& e matches BldError::Other(text)
                    &&& text@ == ALREADY_INITIALIZED@
                },
            },
    {
        if build_dir_exists {
            return Err(BldError::Other(ALREADY_INITIALIZED.to_owned()));
        }
        let mut steps: Vec<InitStep> = Vec::new();
        steps.push(InitStep::BuildDir);
        if is_server {
            steps.push(InitStep::LogsDir);
            steps.push(InitStep::DbDir);
        }
        steps.push(InitStep::DefaultYaml);
        steps.push(InitStep::ConfigYaml { server: is_server });
        assert(steps@ =~= Self::steps(is_server));
        Ok(steps)
    }
}

} // verus!
