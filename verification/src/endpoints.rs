use crate::pipeline::{history_info, history_text, ExecutionRecord};
use crate::registry::ExecutionRegistry;
use crate::socket::{ConnState, ExecutePipelineSocket};
use crate::types::BldError;
use vstd::prelude::*;

verus! {

/// What the stop endpoint answers for an execution that is not running.
pub const NOT_RUNNING: &'static str = "pipeline not found";

/// What a plain endpoint answers.
#[derive(Debug, Clone, PartialEq, Eq)]
pub enum HttpReply {
    /// Success, with this body.
    Found(String),
    /// The request could not be served; the body is empty.
    BadRequest,
    /// The caller is not known; the body is empty.
    Unauthorized,
}

/// The answer to a request for the history: refused to a caller who is not
/// known; else the history of the executions that the store gave, or a bad
/// request where the store gave none.
pub fn hist(user: Option<&String>, pipelines: Result<&Vec<ExecutionRecord>, BldError>) -> (reply: HttpReply)
    ensures
        match reply {
            HttpReply::Unauthorized => user is None,
            HttpReply::BadRequest => user is Some && pipelines is Err,
            HttpReply::Found(body) => {
                &&& user is Some
                &&& pipelines matches Ok(records)
                &&& body@ == history_text(records@)
            },
        },
{
    if user.is_none() {
        return HttpReply::Unauthorized;
    }
    match pipelines {
        Ok(records) => HttpReply::Found(history_info(records)),
        Err(_) => HttpReply::BadRequest,
    }
}

/// The answer to a request to stop the execution `id`: refused to a caller
/// who is not known, and then nothing changes; else the execution is asked
/// to stop where it is running, and the answer says so where it is not,
/// which is no error.
pub fn stop(user: Option<&String>, id: &str, registry: &mut ExecutionRegistry) -> (reply: HttpReply)
    ensures
        final(registry)@ == (if user is Some {
            ExecutionRegistry::cancelled(old(registry)@, id@)
        } else {
            old(registry)@
        }),
        match reply {
            HttpReply::Unauthorized => user is None,
            HttpReply::Found(body) => {
                &&& user is Some
                &&& body@ == (if old(registry)@.contains_key(id@) {
                    Seq::<char>::empty()
                } else {
                    NOT_RUNNING@
                })
            },
            HttpReply::BadRequest => false,
        },
{
    if user.is_none() {
        return HttpReply::Unauthorized;
    }
    if registry.cancel(id) {
        HttpReply::Found(String::new())
    } else {
        HttpReply::Found(NOT_RUNNING.to_owned())
    }
}

/// The connection that is opened for a caller who asks to run pipelines at
/// `now`: none for a caller who is not known.
pub fn ws_exec(user: Option<String>, logs: String, now: u64) -> (socket: Result<ExecutePipelineSocket, HttpReply>)
    ensures
        match socket {
            Ok(opened) => {
                &&& user matches Some(name)
                &&& opened.user() == name@
                &&& opened.logs() == logs@
                &&& opened.last_seen() == now
                &&& opened.state() == ConnState::Idle
                &&& opened.execution() is None
                &&& opened.scanner() is None
            },
            Err(reply) => user is None && reply is Unauthorized,
        },
{
    match user {
        Some(name) => Ok(ExecutePipelineSocket::new(name, logs, now)),
        None => Err(HttpReply::Unauthorized),
    }
}

} // verus!
